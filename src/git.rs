//! Version-control identity, remotes and the SSH proxy configuration.
use vstd::prelude::*;

use crate::text::{append, concat2, contains_seq, contains_text, owned};

verus! {

/// The local VCS user identity (user name and email), each optional.
#[derive(Debug, Clone)]
pub struct GitUserConfig {
    pub name: Option<String>,
    pub email: Option<String>,
}

impl Default for GitUserConfig {
    fn default() -> (r: Self)
        ensures
            r.name is None,
            r.email is None,
    {
        GitUserConfig { name: None, email: None }
    }
}

impl GitUserConfig {
    /// Whether at least one value is present.
    pub fn has_config(&self) -> (r: bool)
        ensures
            r == (self.name is Some || self.email is Some),
    {
        self.name.is_some() || self.email.is_some()
    }
}

/// The remote URL of a project's bare repository on an instance.
pub open spec fn remote_url(instance_id: Seq<char>, project_name: Seq<char>) -> Seq<char> {
    "ec2-user@"@ + instance_id + ":/home/ec2-user/repos/"@ + project_name + ".git"@
}

/// The remote URL of a project's bare repository on an instance.
pub fn get_remote_url(instance_id: &str, project_name: &str) -> (r: String)
    ensures
        r@ == remote_url(instance_id@, project_name@),
{
    let mut r = concat2("ec2-user@", instance_id);
    append(&mut r, ":/home/ec2-user/repos/");
    append(&mut r, project_name);
    append(&mut r, ".git");
    r
}

/// The remote URL of a project's bare repository in `user`'s home on an instance.
pub open spec fn user_remote_url(user: Seq<char>, instance_id: Seq<char>, project_name: Seq<char>) -> Seq<char> {
    user + "@"@ + instance_id + ":/home/"@ + user + "/repos/"@ + project_name + ".git"@
}

/// The remote URL of a project's bare repository in `user`'s home on an instance.
pub fn get_user_remote_url(user: &str, instance_id: &str, project_name: &str) -> (r: String)
    ensures
        r@ == user_remote_url(user@, instance_id@, project_name@),
{
    let mut r = concat2(user, "@");
    append(&mut r, instance_id);
    append(&mut r, ":/home/");
    append(&mut r, user);
    append(&mut r, "/repos/");
    append(&mut r, project_name);
    append(&mut r, ".git");
    r
}

/// The SSH client configuration that routes instance hosts through the session broker.
pub const SSH_CONFIG_BLOCK: &'static str = "# EC2 SSH via SSM Session Manager\nHost i-* mi-*\n    User ec2-user\n    ProxyCommand sh -c \"aws ssm start-session --target %h --document-name AWS-StartSSHSession --parameters 'portNumber=%p'\"\n";

/// The SSH client configuration block for the session broker.
pub fn generate_ssh_config_block() -> (r: String)
    ensures
        r@ == SSH_CONFIG_BLOCK@,
{
    owned(SSH_CONFIG_BLOCK)
}

/// How far the SSH client configuration is set up for the session broker.
#[derive(Debug, Clone, Copy, PartialEq, Eq)]
pub enum SshConfigStatus {
    Configured,
    NeedsConfiguration,
    Missing,
}

impl SshConfigStatus {
    /// A short description.
    pub fn as_str(&self) -> (r: &'static str)
        ensures
            r@ == match self {
                SshConfigStatus::Configured => "configured"@,
                SshConfigStatus::NeedsConfiguration => "needs configuration"@,
                SshConfigStatus::Missing => "missing"@,
            },
    {
        match self {
            SshConfigStatus::Configured => "configured",
            SshConfigStatus::NeedsConfiguration => "needs configuration",
            SshConfigStatus::Missing => "missing",
        }
    }
}

/// Whether an SSH configuration text routes instance hosts through the broker.
pub open spec fn ssh_config_routes_instances(content: Seq<char>) -> bool {
    (contains_seq(content, "Host i-*"@) || contains_seq(content, "Host mi-*"@))
        && contains_seq(content, "ProxyCommand"@) && contains_seq(content, "ssm"@)
}

/// Classifies the SSH client configuration text, `None` when the file is absent.
pub fn classify_ssh_config(content: Option<&str>) -> (r: SshConfigStatus)
    ensures
        content is None ==> r == SshConfigStatus::Missing,
        content is Some ==> (r == SshConfigStatus::Configured <==> ssh_config_routes_instances(
            content->Some_0@,
        )),
        content is Some ==> r != SshConfigStatus::Missing,
{
    match content {
        None => SshConfigStatus::Missing,
        Some(c) => {
            let host = contains_text(c, "Host i-*") || contains_text(c, "Host mi-*");
            let proxy = contains_text(c, "ProxyCommand") && contains_text(c, "ssm");
            if host && proxy {
                SshConfigStatus::Configured
            } else {
                SshConfigStatus::NeedsConfiguration
            }
        },
    }
}

/// The version control system in use.
#[derive(Debug, Clone, Copy, PartialEq, Eq)]
pub enum VcsType {
    Git,
    Jj,
}

impl VcsType {
    /// The command name of the system.
    pub fn as_str(&self) -> (r: &'static str)
        ensures
            r@ == match self {
                VcsType::Git => "git"@,
                VcsType::Jj => "jj"@,
            },
    {
        match self {
            VcsType::Git => "git",
            VcsType::Jj => "jj",
        }
    }
}

/// Picks the version control system from what was detected: Jujutsu wins over git.
pub fn detect_vcs(is_jj_repo: bool, is_git_repo: bool) -> (r: Option<VcsType>)
    ensures
        is_jj_repo ==> r == Some(VcsType::Jj),
        !is_jj_repo && is_git_repo ==> r == Some(VcsType::Git),
        !is_jj_repo && !is_git_repo ==> r is None,
{
    if is_jj_repo {
        Some(VcsType::Jj)
    } else if is_git_repo {
        Some(VcsType::Git)
    } else {
        None
    }
}

} // verus!
