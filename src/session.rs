//! Commands that reach an instance through the session broker, and naming helpers.
use vstd::prelude::*;

use crate::error::{Ec2CliError, Result};
use crate::text::{append, concat2, concat3, is_ascii_alnum, owned};

verus! {

/// The SSH options that route a connection through the session broker.
pub const SSM_PROXY_OPTIONS: &'static str = "-o 'ProxyCommand=sh -c \"aws ssm start-session --target %h --document-name AWS-StartSSHSession --parameters portNumber=%p\"' -o StrictHostKeyChecking=no -o UserKnownHostsFile=/dev/null";

/// The proxy command that opens a session-broker session to host `%h`, port `%p`.
pub const SSM_PROXY_COMMAND: &'static str = "sh -c \"aws ssm start-session --target %h --document-name AWS-StartSSHSession --parameters portNumber=%p\"";

/// `s` with each `'` written as `'\''`, so that it can stand inside single quotes.
pub open spec fn quote_escaped(s: Seq<char>) -> Seq<char>
    decreases s.len(),
{
    if s.len() == 0 {
        Seq::empty()
    } else {
        quote_escaped(s.drop_last()) + if s.last() == '\'' {
            "'\\''"@
        } else {
            seq![s.last()]
        }
    }
}

fn escape_single_quotes(s: &str) -> (r: String)
    ensures
        r@ == quote_escaped(s@),
{
    let n = s.unicode_len();
    let mut r = String::new();
    let mut i: usize = 0;
    while i < n
        invariant
            n == s@.len(),
            i <= n,
            r@ == quote_escaped(s@.take(i as int)),
        decreases n - i,
    {
        let one = s.substring_char(i, i + 1);
        if s.get_char(i) == '\'' {
            append(&mut r, "'\\''");
        } else {
            append(&mut r, one);
            assert(one@ =~= seq![s@[i as int]]);
        }
        assert(s@.take(i + 1).drop_last() =~= s@.take(i as int));
        i += 1;
    }
    assert(s@.take(n as int) =~= s@);
    r
}

/// The SSH command line for `GIT_SSH_COMMAND` that reaches instances through the
/// session broker, with `-i '<path>'` when an identity file is given.
pub open spec fn ssm_ssh_command_text(ssh_key_path: Option<Seq<char>>) -> Seq<char> {
    "ssh "@ + match ssh_key_path {
        Some(p) => "-i '"@ + quote_escaped(p) + "' "@,
        None => Seq::empty(),
    } + SSM_PROXY_OPTIONS@
}

/// The SSH command line for `GIT_SSH_COMMAND` through the session broker.
pub fn ssm_ssh_command(ssh_key_path: Option<&str>) -> (r: String)
    ensures
        r@ == ssm_ssh_command_text(
            match ssh_key_path {
                Some(p) => Some(p@),
                None => None,
            },
        ),
{
    let identity = match ssh_key_path {
        Some(p) => {
            let mut f = owned("-i '");
            let escaped = escape_single_quotes(p);
            append(&mut f, escaped.as_str());
            append(&mut f, "' ");
            f
        },
        None => String::new(),
    };
    let mut r = concat2("ssh ", identity.as_str());
    append(&mut r, SSM_PROXY_OPTIONS);
    r
}

/// Splits the two path arguments of a copy into (local path, remote path, upload?).
/// The remote one is marked by a leading `:`; exactly one must be remote.
pub fn parse_paths(src: &str, dest: &str) -> (r: Result<(String, String, bool)>)
    ensures
        ({
            let s = src@;
            let d = dest@;
            let s_remote = s.len() > 0 && s[0] == ':';
            let d_remote = d.len() > 0 && d[0] == ':';
            &&& (!s_remote && d_remote) ==> r is Ok && r->Ok_0.0@ == s && r->Ok_0.1@ == d.drop_first()
                && r->Ok_0.2
            &&& (s_remote && !d_remote) ==> r is Ok && r->Ok_0.0@ == d && r->Ok_0.1@ == s.drop_first()
                && !r->Ok_0.2
            &&& (s_remote == d_remote) ==> r is Err && r->Err_0 is InvalidPath
        }),
{
    let ns = src.unicode_len();
    let nd = dest.unicode_len();
    let src_remote = ns > 0 && src.get_char(0) == ':';
    let dest_remote = nd > 0 && dest.get_char(0) == ':';
    if !src_remote && dest_remote {
        let remote = dest.substring_char(1, nd);
        assert(remote@ =~= dest@.drop_first());
        Ok((owned(src), owned(remote), true))
    } else if src_remote && !dest_remote {
        let remote = src.substring_char(1, ns);
        assert(remote@ =~= src@.drop_first());
        Ok((owned(dest), owned(remote), false))
    } else if src_remote {
        Err(Ec2CliError::InvalidPath(owned("Both source and destination cannot be remote")))
    } else {
        Err(Ec2CliError::InvalidPath(owned(
            "One of source or destination must be remote (prefix with :)",
        )))
    }
}

/// Whether `c` is alphabetic or numeric in Unicode, as `char::is_alphanumeric` decides.
pub uninterp spec fn unicode_alphanumeric(c: char) -> bool;

/// Relies on `char::is_alphanumeric`: Unicode `Alphabetic` or numeric; among
/// ASCII characters exactly the letters and digits.
#[verifier::external_body]
fn is_alphanumeric(c: char) -> (r: bool)
    ensures
        r == unicode_alphanumeric(c),
        (c as u32) < 128 ==> (r == is_ascii_alnum(c)),
{
    c.is_alphanumeric()
}

/// A profile name: non-empty, alphanumeric characters, `-` and `_` only.
pub open spec fn is_profile_name(s: Seq<char>) -> bool {
    &&& s.len() > 0
    &&& forall|i: int| 0 <= i < s.len() ==> unicode_alphanumeric(#[trigger] s[i]) || s[i] == '-' || s[i] == '_'
}

/// Checks that a profile name cannot reach outside the profile directories.
pub fn validate_profile_name(name: &str) -> (r: Result<()>)
    ensures
        r is Ok <==> is_profile_name(name@),
        r is Ok ==> forall|i: int|
            0 <= i < name@.len() && (name@[i] as u32) < 128 ==> is_ascii_alnum(#[trigger] name@[i])
                || name@[i] == '-' || name@[i] == '_',
        r is Ok ==> !name@.contains('.') && !name@.contains('/') && !name@.contains('\\'),
        (forall|i: int| 0 <= i < name@.len() ==> (#[trigger] name@[i] as u32) < 128) ==> (r is Ok <==> (
        name@.len() > 0 && forall|i: int|
            0 <= i < name@.len() ==> is_ascii_alnum(#[trigger] name@[i]) || name@[i] == '-' || name@[i]
                == '_')),
        r is Err ==> r->Err_0 is ProfileInvalid,
{
    let n = name.unicode_len();
    if n == 0 {
        return Err(Ec2CliError::ProfileInvalid(owned("Profile name cannot be empty")));
    }
    let mut i: usize = 0;
    while i < n
        invariant
            n == name@.len(),
            i <= n,
            forall|j: int|
                0 <= j < i ==> unicode_alphanumeric(#[trigger] name@[j]) || name@[j] == '-' || name@[j]
                    == '_',
            forall|j: int|
                0 <= j < i && (name@[j] as u32) < 128 ==> is_ascii_alnum(#[trigger] name@[j])
                    || name@[j] == '-' || name@[j] == '_',
        decreases n - i,
    {
        let c = name.get_char(i);
        if !(is_alphanumeric(c) || c == '-' || c == '_') {
            assert(name@[i as int] == c);
            return Err(Ec2CliError::ProfileInvalid(concat3("Invalid profile name '", name,
                "': only alphanumeric, dash, and underscore allowed")));
        }
        i += 1;
    }
    Ok(())
}

/// The name of an instance's security boundary: unique through a random suffix.
pub open spec fn security_group_name_text(instance_name: Seq<char>, suffix: Seq<char>) -> Seq<char> {
    "ec2-cli-"@ + instance_name + "-"@ + suffix
}

/// A lowercase hexadecimal digit.
pub open spec fn is_lower_hex(c: char) -> bool {
    ('0' <= c && c <= '9') || ('a' <= c && c <= 'f')
}

/// Relies on `uuid::Uuid::new_v4` and its `Display`: a random version-4 UUID,
/// written hyphenated in 36 characters, lowercase hexadecimal digits with `-`
/// at positions 8, 13, 18 and 23.
#[verifier::external_body]
fn random_uuid() -> (r: String)
    ensures
        r@.len() == 36,
        forall|i: int|
            0 <= i < 36 ==> if i == 8 || i == 13 || i == 18 || i == 23 {
                r@[i] == '-'
            } else {
                is_lower_hex(#[trigger] r@[i])
            },
{
    uuid::Uuid::new_v4().to_string()
}

/// The security boundary name for `instance_name` with the given suffix.
pub fn security_group_name(instance_name: &str, suffix: &str) -> (r: String)
    ensures
        r@ == security_group_name_text(instance_name@, suffix@),
{
    let mut r = concat3("ec2-cli-", instance_name, "-");
    append(&mut r, suffix);
    r
}

/// A fresh security boundary name for `instance_name`, with eight random
/// hexadecimal digits as suffix (not derived from the name, so repeated launches
/// do not collide).
pub fn new_security_group_name(instance_name: &str) -> (r: String)
    ensures
        exists|suffix: Seq<char>|
            suffix.len() == 8 && (forall|i: int| 0 <= i < 8 ==> is_lower_hex(#[trigger] suffix[i]))
                && r@ == #[trigger] security_group_name_text(instance_name@, suffix),
{
    let id = random_uuid();
    let suffix = id.as_str().substring_char(0, 8);
    assert forall|i: int| 0 <= i < 8 implies is_lower_hex(#[trigger] suffix@[i]) by {
        assert(suffix@[i] == id@[i]);
    }
    security_group_name(instance_name, suffix)
}

/// The description of an instance's security boundary.
pub fn security_group_description(instance_name: &str) -> (r: String)
    ensures
        r@ == "Security group for ec2-cli instance "@ + instance_name@,
{
    concat2("Security group for ec2-cli instance ", instance_name)
}

} // verus!
