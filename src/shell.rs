//! Checks on text that is embedded into the generated bootstrap script.
use vstd::prelude::*;

use crate::error::{Ec2CliError, Result};
use crate::text::{append, ascii_alnum, concat2, concat3, is_ascii_alnum, is_ascii_digit, owned};

verus! {

/// Characters that carry meaning to a POSIX shell.
pub open spec fn is_shell_meta(c: char) -> bool {
    c == ';' || c == '&' || c == '|' || c == '$' || c == '`' || c == '(' || c == ')' || c == '{'
        || c == '}' || c == '[' || c == ']' || c == '<' || c == '>' || c == '\'' || c == '"'
        || c == '\\' || c == '\n' || c == '\r' || c == '!' || c == '#' || c == '*' || c == '?'
        || c == '~'
}

/// Whether some character of `s` is a shell metacharacter.
pub open spec fn has_shell_meta(s: Seq<char>) -> bool {
    exists|i: int| 0 <= i < s.len() && is_shell_meta(#[trigger] s[i])
}

/// A value that may be embedded in a shell command: non-empty, no metacharacter.
pub open spec fn is_shell_safe(s: Seq<char>) -> bool {
    s.len() > 0 && !has_shell_meta(s)
}

/// Longest accepted identity value (VCS user name or email), in characters.
pub const IDENTITY_MAX_LEN: usize = 256;

/// A VCS identity value: non-empty, bounded, no metacharacter.
pub open spec fn is_identity_value(s: Seq<char>) -> bool {
    s.len() > 0 && s.len() <= IDENTITY_MAX_LEN && !has_shell_meta(s)
}

/// An environment variable name: `[A-Za-z_][A-Za-z0-9_]*`.
pub open spec fn is_env_key(s: Seq<char>) -> bool {
    &&& s.len() > 0
    &&& !is_ascii_digit(s[0])
    &&& forall|i: int| 0 <= i < s.len() ==> is_ascii_alnum(#[trigger] s[i]) || s[i] == '_'
}

/// Longest accepted project name, in characters.
pub const PROJECT_NAME_MAX_LEN: usize = 64;

/// A character allowed in a project name.
pub open spec fn is_project_char(c: char) -> bool {
    is_ascii_alnum(c) || c == '-' || c == '_' || c == '.'
}

/// A project name: `[A-Za-z0-9._-]+`, at most 64 characters, not starting with `.` or `-`.
pub open spec fn is_project_name(s: Seq<char>) -> bool {
    &&& s.len() > 0
    &&& s.len() <= PROJECT_NAME_MAX_LEN
    &&& forall|i: int| 0 <= i < s.len() ==> is_project_char(#[trigger] s[i])
    &&& s[0] != '.' && s[0] != '-'
}

/// An ASCII letter.
pub open spec fn is_ascii_letter(c: char) -> bool {
    ('a' <= c && c <= 'z') || ('A' <= c && c <= 'Z')
}

/// A login user name: ASCII letters, digits, `_` and `-`, starting with a letter
/// or `_` (a leading `-` would read as a command option).
pub open spec fn is_username(s: Seq<char>) -> bool {
    &&& s.len() > 0
    &&& forall|i: int| 0 <= i < s.len() ==> is_ascii_alnum(#[trigger] s[i]) || s[i] == '_' || s[i] == '-'
    &&& (is_ascii_letter(s[0]) || s[0] == '_')
}

fn shell_meta(c: char) -> (r: bool)
    ensures
        r == is_shell_meta(c),
{
    c == ';' || c == '&' || c == '|' || c == '$' || c == '`' || c == '(' || c == ')' || c == '{'
        || c == '}' || c == '[' || c == ']' || c == '<' || c == '>' || c == '\'' || c == '"'
        || c == '\\' || c == '\n' || c == '\r' || c == '!' || c == '#' || c == '*' || c == '?'
        || c == '~'
}

/// Whether `s` holds a shell metacharacter.
pub fn contains_shell_meta(s: &str) -> (r: bool)
    ensures
        r == has_shell_meta(s@),
{
    let n = s.unicode_len();
    let mut i: usize = 0;
    while i < n
        invariant
            n == s@.len(),
            i <= n,
            forall|j: int| 0 <= j < i ==> !is_shell_meta(#[trigger] s@[j]),
        decreases n - i,
    {
        if shell_meta(s.get_char(i)) {
            return true;
        }
        i += 1;
    }
    false
}

fn invalid(m: String) -> (r: Ec2CliError)
    ensures
        r is ProfileValidation,
{
    Ec2CliError::ProfileValidation(m)
}

/// Checks that `s` may be embedded in a shell command; `context` names the value in the error.
pub fn validate_shell_safe(s: &str, context: &str) -> (r: Result<()>)
    ensures
        r is Ok <==> is_shell_safe(s@),
        r is Err ==> r->Err_0 is ProfileValidation,
{
    if contains_shell_meta(s) {
        let mut m = concat3("Invalid characters in ", context, ": '");
        append(&mut m, s);
        append(&mut m, "'. Shell metacharacters are not allowed.");
        return Err(invalid(m));
    }
    if s.unicode_len() == 0 {
        return Err(invalid(concat2(context, " cannot be empty")));
    }
    Ok(())
}

/// Checks that `key` is an environment variable name.
pub fn validate_env_key(key: &str) -> (r: Result<()>)
    ensures
        r is Ok <==> is_env_key(key@),
        r is Err ==> r->Err_0 is ProfileValidation,
{
    let n = key.unicode_len();
    if n == 0 {
        return Err(invalid(owned("Environment variable key cannot be empty")));
    }
    let mut i: usize = 0;
    while i < n
        invariant
            n == key@.len(),
            i <= n,
            forall|j: int| 0 <= j < i ==> is_ascii_alnum(#[trigger] key@[j]) || key@[j] == '_',
        decreases n - i,
    {
        let c = key.get_char(i);
        if !(ascii_alnum(c) || c == '_') {
            return Err(invalid(concat3("Invalid environment variable key: '", key,
                "'. Only alphanumeric and underscore allowed.")));
        }
        i += 1;
    }
    let c0 = key.get_char(0);
    if '0' <= c0 && c0 <= '9' {
        return Err(invalid(concat3("Environment variable key '", key,
            "' cannot start with a number")));
    }
    Ok(())
}

/// Checks that `name` is a project name usable in paths and shell commands.
pub fn validate_project_name(name: &str) -> (r: Result<()>)
    ensures
        r is Ok <==> is_project_name(name@),
        r is Err ==> r->Err_0 is ProfileValidation,
{
    let n = name.unicode_len();
    if n == 0 {
        return Err(invalid(owned("Project name cannot be empty")));
    }
    if n > PROJECT_NAME_MAX_LEN {
        return Err(invalid(owned("Project name cannot exceed 64 characters")));
    }
    let mut i: usize = 0;
    while i < n
        invariant
            n == name@.len(),
            i <= n,
            forall|j: int| 0 <= j < i ==> is_project_char(#[trigger] name@[j]),
        decreases n - i,
    {
        let c = name.get_char(i);
        if !(ascii_alnum(c) || c == '-' || c == '_' || c == '.') {
            return Err(invalid(concat3("Invalid project name: '", name,
                "'. Only alphanumeric, dash, underscore, and dot allowed.")));
        }
        i += 1;
    }
    let c0 = name.get_char(0);
    if c0 == '.' || c0 == '-' {
        return Err(invalid(concat3("Project name '", name, "' cannot start with a dot or dash")));
    }
    Ok(())
}

/// Checks that `username` is a login user name.
pub fn validate_username(username: &str) -> (r: Result<()>)
    ensures
        r is Ok <==> is_username(username@),
        r is Err ==> r->Err_0 is ProfileValidation,
{
    let n = username.unicode_len();
    if n == 0 {
        return Err(invalid(owned("Username cannot be empty")));
    }
    let mut i: usize = 0;
    while i < n
        invariant
            n == username@.len(),
            i <= n,
            forall|j: int|
                0 <= j < i ==> is_ascii_alnum(#[trigger] username@[j]) || username@[j] == '_'
                    || username@[j] == '-',
        decreases n - i,
    {
        let c = username.get_char(i);
        if !(ascii_alnum(c) || c == '_' || c == '-') {
            return Err(invalid(concat3("Invalid username: '", username,
                "'. Only alphanumeric, underscore, and dash allowed.")));
        }
        i += 1;
    }
    let c0 = username.get_char(0);
    if !(('a' <= c0 && c0 <= 'z') || ('A' <= c0 && c0 <= 'Z') || c0 == '_') {
        return Err(invalid(concat3("Username '", username,
            "' must start with a letter or underscore")));
    }
    Ok(())
}

/// Checks a VCS identity value (user name or email); `context` names it in the error.
pub fn validate_git_config_value(value: &str, context: &str) -> (r: Result<()>)
    ensures
        r is Ok <==> is_identity_value(value@),
        r is Err ==> r->Err_0 is ProfileValidation,
{
    let n = value.unicode_len();
    if n == 0 {
        return Err(invalid(concat2(context, " cannot be empty")));
    }
    if n > IDENTITY_MAX_LEN {
        return Err(invalid(concat2(context, " exceeds maximum length of 256 characters")));
    }
    if contains_shell_meta(value) {
        let mut m = concat3("Invalid characters in ", context, ": '");
        append(&mut m, value);
        append(&mut m, "'. Shell metacharacters are not allowed.");
        return Err(invalid(m));
    }
    Ok(())
}

/// A character of the plain alphabet: ASCII letters and digits, `.`, `-` and `_`.
pub open spec fn is_plain_char(c: char) -> bool {
    is_ascii_alnum(c) || c == '.' || c == '-' || c == '_'
}

/// A character of the identity alphabet: the plain alphabet with space, `@` and `+`.
pub open spec fn is_identity_char(c: char) -> bool {
    is_plain_char(c) || c == ' ' || c == '@' || c == '+'
}

/// Shell-safety law: every text holding a metacharacter is rejected both as a
/// shell value and as an identity value; every non-empty text over the plain
/// alphabet is accepted as a shell value; every non-empty identity-alphabet text
/// of at most 256 characters is accepted as an identity value.
pub proof fn lemma_shell_safety(s: Seq<char>)
    ensures
        has_shell_meta(s) ==> !is_shell_safe(s) && !is_identity_value(s),
        s.len() > 0 && (forall|i: int| 0 <= i < s.len() ==> is_plain_char(#[trigger] s[i]))
            ==> is_shell_safe(s),
        0 < s.len() <= 256 && (forall|i: int| 0 <= i < s.len() ==> is_identity_char(#[trigger] s[i]))
            ==> is_identity_value(s),
{
}

} // verus!
