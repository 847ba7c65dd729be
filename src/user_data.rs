//! Synthesis of the first-boot bootstrap script.
//!
//! The script is an ordered list of stages. Each stage is a spec function from
//! validated inputs to text, and the script is their concatenation, so that the
//! ordering of the stages is a property of that list.
use vstd::prelude::*;

use crate::error::{Ec2CliError, Result};
use crate::git::GitUserConfig;
use crate::profile::{is_one_of, one_of, rust_channels, texts, Profile};
use crate::ssh_key::has_line_break;
use crate::shell::{
    is_env_key, is_identity_value, is_project_name, is_shell_safe, is_username,
    validate_env_key, validate_git_config_value, validate_project_name, validate_shell_safe,
    validate_username,
};
use crate::text::{append, concat2, occurs_at, owned, same_text};

verus! {

pub const SCRIPT_HEADER: &'static str = "#!/bin/bash\nset -ex\n\nexec > >(tee /var/log/ec2-cli-init.log) 2>&1\n\n";

pub const KEY_MARKER: &'static str = "echo 'Configuring SSH public key...'\n";

pub const IDENTITY_MARKER: &'static str = "echo 'Configuring git user identity...'\n";

pub const SCAFFOLD_MARKER: &'static str = "echo 'Setting up git directories...'\n";

pub const DOCKER_GROUP_MARKER: &'static str = "echo 'Setting up docker group...'\n";

pub const PACKAGES_MARKER: &'static str = "echo 'Installing system packages...'\n";

pub const HOOK_HEAD: &'static str = "cat > /home/";

pub const HOOK_MIDDLE: &'static str = ".git/hooks/post-receive << 'HOOKEOF'\n#!/bin/bash\nwhile read oldrev newrev refname; do\n    # Skip branch deletions (newrev is all zeros)\n    if [ \"$newrev\" = \"0000000000000000000000000000000000000000\" ]; then\n        continue\n    fi\n    # Only handle branch pushes, not tags\n    case \"$refname\" in\n        refs/heads/*)\n            branch=\"${refname#refs/heads/}\"\n            GIT_WORK_TREE=/home/";

pub const HOOK_TAIL: &'static str = " git checkout -f \"$branch\"\n            ;;\n    esac\ndone\nHOOKEOF\n";

pub const MOTD_HEAD: &'static str = "cat > /etc/update-motd.d/99-ec2-cli << 'MOTDEOF'\n#!/bin/bash\n\n# Gather system info\nLOAD=$(awk '{print $1}' /proc/loadavg)\nMEM_TOTAL=$(grep MemTotal /proc/meminfo | awk '{print $2}')\nMEM_AVAIL=$(grep MemAvailable /proc/meminfo | awk '{print $2}')\nMEM_PCT=$((100 - (MEM_AVAIL * 100 / MEM_TOTAL)))\nDISK_PCT=$(df / | awk 'NR==2 {gsub(/%/,\"\"); print $5}')\nIP_ADDR=$(hostname -I | awk '{print $1}')\nIFACE=$(ip route | awk '/default/ {print $5}' | head -1)\n\ncat << EOF\n\u{250c}\u{2500}\u{2500}\u{2500}\u{2500}\u{2500}\u{2500}\u{2500}\u{2500}\u{2500}\u{2500}\u{2500}\u{2500}\u{2500}\u{2500}\u{2500}\u{2500}\u{2500}\u{2500}\u{2500}\u{2500}\u{2500}\u{2500}\u{2500}\u{2500}\u{2500}\u{2500}\u{2500}\u{2500}\u{2500}\u{2500}\u{2500}\u{2500}\u{2500}\u{2500}\u{2500}\u{2500}\u{2500}\u{2500}\u{2500}\u{2500}\u{2500}\u{2500}\u{2500}\u{2500}\u{2500}\u{2500}\u{2500}\u{2500}\u{2500}\u{2500}\u{2500}\u{2500}\u{2500}\u{2500}\u{2500}\u{2500}\u{2500}\u{2500}\u{2500}\u{2500}\u{2500}\u{2500}\u{2500}\u{2500}\u{2500}\u{2500}\u{2510}\n\u{2502}                                                                  \u{2502}\n\u{2502}   ec2-cli Development Instance                                   \u{2502}\n\u{2502}                                                                  \u{2502}\n\u{251c}\u{2500}\u{2500}\u{2500}\u{2500}\u{2500}\u{2500}\u{2500}\u{2500}\u{2500}\u{2500}\u{2500}\u{2500}\u{2500}\u{2500}\u{2500}\u{2500}\u{2500}\u{2500}\u{2500}\u{2500}\u{2500}\u{2500}\u{2500}\u{2500}\u{2500}\u{2500}\u{2500}\u{2500}\u{2500}\u{2500}\u{2500}\u{2500}\u{2500}\u{2500}\u{2500}\u{2500}\u{2500}\u{2500}\u{2500}\u{2500}\u{2500}\u{2500}\u{2500}\u{2500}\u{2500}\u{2500}\u{2500}\u{2500}\u{2500}\u{2500}\u{2500}\u{2500}\u{2500}\u{2500}\u{2500}\u{2500}\u{2500}\u{2500}\u{2500}\u{2500}\u{2500}\u{2500}\u{2500}\u{2500}\u{2500}\u{2500}\u{2524}\n\u{2502}                                                                  \u{2502}\n\u{2502}   System       Load: $LOAD    Memory: $MEM_PCT%    Disk: $DISK_PCT%\n\u{2502}   Network      $IP_ADDR ($IFACE)\n\u{2502}                                                                  \u{2502}\n\u{251c}\u{2500}\u{2500}\u{2500}\u{2500}\u{2500}\u{2500}\u{2500}\u{2500}\u{2500}\u{2500}\u{2500}\u{2500}\u{2500}\u{2500}\u{2500}\u{2500}\u{2500}\u{2500}\u{2500}\u{2500}\u{2500}\u{2500}\u{2500}\u{2500}\u{2500}\u{2500}\u{2500}\u{2500}\u{2500}\u{2500}\u{2500}\u{2500}\u{2500}\u{2500}\u{2500}\u{2500}\u{2500}\u{2500}\u{2500}\u{2500}\u{2500}\u{2500}\u{2500}\u{2500}\u{2500}\u{2500}\u{2500}\u{2500}\u{2500}\u{2500}\u{2500}\u{2500}\u{2500}\u{2500}\u{2500}\u{2500}\u{2500}\u{2500}\u{2500}\u{2500}\u{2500}\u{2500}\u{2500}\u{2500}\u{2500}\u{2500}\u{2524}\n\u{2502}                                                                  \u{2502}\n\u{2502}   Your Project ~/work/";

pub const MOTD_TAIL: &'static str = "\n\u{2502}                (this is where \\`ec2-cli push\\` writes)             \u{2502}\n\u{2502}                                                                  \u{2502}\n\u{2502}   Workflow     1. In your repository, make changes and commit:   \u{2502}\n\u{2502}                   git add . && git commit -m \"message\"           \u{2502}\n\u{2502}                                                                  \u{2502}\n\u{2502}                2. From your local machine:                       \u{2502}\n\u{2502}                   ec2-cli pull                                   \u{2502}\n\u{2502}                                                                  \u{2502}\n\u{251c}\u{2500}\u{2500}\u{2500}\u{2500}\u{2500}\u{2500}\u{2500}\u{2500}\u{2500}\u{2500}\u{2500}\u{2500}\u{2500}\u{2500}\u{2500}\u{2500}\u{2500}\u{2500}\u{2500}\u{2500}\u{2500}\u{2500}\u{2500}\u{2500}\u{2500}\u{2500}\u{2500}\u{2500}\u{2500}\u{2500}\u{2500}\u{2500}\u{2500}\u{2500}\u{2500}\u{2500}\u{2500}\u{2500}\u{2500}\u{2500}\u{2500}\u{2500}\u{2500}\u{2500}\u{2500}\u{2500}\u{2500}\u{2500}\u{2500}\u{2500}\u{2500}\u{2500}\u{2500}\u{2500}\u{2500}\u{2500}\u{2500}\u{2500}\u{2500}\u{2500}\u{2500}\u{2500}\u{2500}\u{2500}\u{2500}\u{2500}\u{2524}\n\u{2502}                                                                  \u{2502}\n\u{2502}   Logs         cat /var/log/ec2-cli-init.log                     \u{2502}\n\u{2502}   Ready?       ls ~/.ec2-cli-ready                               \u{2502}\n\u{2502}                                                                  \u{2502}\n\u{2514}\u{2500}\u{2500}\u{2500}\u{2500}\u{2500}\u{2500}\u{2500}\u{2500}\u{2500}\u{2500}\u{2500}\u{2500}\u{2500}\u{2500}\u{2500}\u{2500}\u{2500}\u{2500}\u{2500}\u{2500}\u{2500}\u{2500}\u{2500}\u{2500}\u{2500}\u{2500}\u{2500}\u{2500}\u{2500}\u{2500}\u{2500}\u{2500}\u{2500}\u{2500}\u{2500}\u{2500}\u{2500}\u{2500}\u{2500}\u{2500}\u{2500}\u{2500}\u{2500}\u{2500}\u{2500}\u{2500}\u{2500}\u{2500}\u{2500}\u{2500}\u{2500}\u{2500}\u{2500}\u{2500}\u{2500}\u{2500}\u{2500}\u{2500}\u{2500}\u{2500}\u{2500}\u{2500}\u{2500}\u{2500}\u{2500}\u{2500}\u{2518}\nEOF\nMOTDEOF\n";

pub const AGENT_STAGE: &'static str = "echo 'Ensuring SSM agent is running...'\nif snap list amazon-ssm-agent 2>/dev/null; then\n    snap start amazon-ssm-agent 2>/dev/null || true\n    systemctl enable snap.amazon-ssm-agent.amazon-ssm-agent.service 2>/dev/null || true\n    systemctl start snap.amazon-ssm-agent.amazon-ssm-agent.service 2>/dev/null || true\nelse\n    # Fallback to deb-based agent\n    systemctl enable amazon-ssm-agent 2>/dev/null || true\n    systemctl start amazon-ssm-agent 2>/dev/null || true\nfi\n\n";

pub const DOCKER_STAGE: &'static str = "echo 'Installing Docker...'\napt-get install -y docker.io\nsystemctl enable docker\nsystemctl start docker\n\n";

pub const RUSTUP_COMMAND: &'static str = "curl --proto \"=https\" --tlsv1.2 -sSf https://sh.rustup.rs | sh -s -- -y";

pub const APPARMOR_STAGE: &'static str = "echo 'Configuring AppArmor for AgentFS...'\ncat > /etc/sysctl.d/99-agentfs.conf << 'AGENTFSEOF'\nkernel.apparmor_restrict_unprivileged_userns = 0\nAGENTFSEOF\nsysctl -p /etc/sysctl.d/99-agentfs.conf\n\n";

// ---------------------------------------------------------------------------
// The model of the script
// ---------------------------------------------------------------------------

/// The view of an optional text.
pub open spec fn opt_view(o: Option<&str>) -> Option<Seq<char>> {
    match o {
        Some(s) => Some(s@),
        None => None,
    }
}

/// The view of an optional owned text.
pub open spec fn opt_string_view(o: Option<String>) -> Option<Seq<char>> {
    match o {
        Some(s) => Some(s@),
        None => None,
    }
}

/// The identity values handed to the script: user name and email.
pub open spec fn identity_of(g: Option<&GitUserConfig>) -> (Option<Seq<char>>, Option<Seq<char>>) {
    match g {
        Some(c) => (opt_string_view(c.name), opt_string_view(c.email)),
        None => (None, None),
    }
}

/// `/home/<user>`.
pub open spec fn home(u: Seq<char>) -> Seq<char> {
    "/home/"@ + u
}

/// The words joined by single spaces.
pub open spec fn join_words(ws: Seq<Seq<char>>) -> Seq<char>
    decreases ws.len(),
{
    if ws.len() == 0 {
        Seq::empty()
    } else if ws.len() == 1 {
        ws[0]
    } else {
        join_words(ws.drop_last()) + " "@ + ws.last()
    }
}

/// One `cargo install` line per package.
pub open spec fn cargo_lines(ps: Seq<Seq<char>>) -> Seq<char>
    decreases ps.len(),
{
    if ps.len() == 0 {
        Seq::empty()
    } else {
        cargo_lines(ps.drop_last()) + "cargo install "@ + ps.last() + "\n"@
    }
}

/// One `export` line per environment entry.
pub open spec fn export_lines(es: Seq<(Seq<char>, Seq<char>)>) -> Seq<char>
    decreases es.len(),
{
    if es.len() == 0 {
        Seq::empty()
    } else {
        export_lines(es.drop_last()) + "export "@ + es.last().0 + "=\""@ + es.last().1 + "\"\n"@
    }
}

/// Trusted-key installation, when a key is supplied.
pub open spec fn key_stage(u: Seq<char>, key: Option<Seq<char>>) -> Seq<char> {
    match key {
        Some(k) => KEY_MARKER@ + key_body(u, k),
        None => Seq::empty(),
    }
}

pub open spec fn key_body(u: Seq<char>, k: Seq<char>) -> Seq<char> {
    "mkdir -p /home/"@ + u + "/.ssh\ncat >> /home/"@ + u + "/.ssh/authorized_keys << 'SSHEOF'\n"@
        + k + "\nSSHEOF\nchmod 700 /home/"@ + u + "/.ssh\nchmod 600 /home/"@ + u
        + "/.ssh/authorized_keys\nchown -R "@ + u + ":"@ + u + " /home/"@ + u + "/.ssh\n\n"@
}

/// The `git config --global` line for one identity value.
pub open spec fn identity_line(u: Seq<char>, field: Seq<char>, v: Option<Seq<char>>) -> Seq<char> {
    match v {
        Some(x) => "su - "@ + u + " -c 'git config --global user."@ + field + " \""@ + x + "\"'\n"@,
        None => Seq::empty(),
    }
}

/// VCS identity configuration, when a name or an email is given.
pub open spec fn identity_stage(u: Seq<char>, name: Option<Seq<char>>, email: Option<Seq<char>>) -> Seq<char> {
    if name is None && email is None {
        Seq::empty()
    } else {
        IDENTITY_MARKER@ + identity_line(u, "name"@, name) + identity_line(u, "email"@, email) + "\n"@
    }
}

/// Working and repository directories.
pub open spec fn scaffold_stage(u: Seq<char>) -> Seq<char> {
    SCAFFOLD_MARKER@ + scaffold_body(u)
}

pub open spec fn scaffold_body(u: Seq<char>) -> Seq<char> {
    "mkdir -p /home/"@ + u + "/repos\nmkdir -p /home/"@ + u + "/work\nchown -R "@ + u + ":"@ + u
        + " /home/"@ + u + "/repos /home/"@ + u + "/work\n\n"@
}

/// Container runtime group membership.
pub open spec fn docker_group_stage(u: Seq<char>) -> Seq<char> {
    DOCKER_GROUP_MARKER@ + docker_group_body(u)
}

pub open spec fn docker_group_body(u: Seq<char>) -> Seq<char> {
    "groupadd -f docker\nusermod -aG docker "@ + u + "\n\n"@
}

/// The bare-repository initialisation line.
pub open spec fn bare_init_line(u: Seq<char>, n: Seq<char>) -> Seq<char> {
    "su - "@ + u + " -c 'git init --bare /home/"@ + u + "/repos/"@ + n + ".git'\n"@
}

/// The marker written once the repository scaffold is in place.
pub open spec fn scaffold_ready_line(u: Seq<char>) -> Seq<char> {
    "touch /home/"@ + u + "/.ec2-cli-git-ready\n\n"@
}

pub open spec fn project_intro(n: Seq<char>) -> Seq<char> {
    "echo 'Setting up git repo for "@ + n + "...'\n"@
}

/// Post-receive hook, worktree configuration and login message.
pub open spec fn project_setup(u: Seq<char>, n: Seq<char>) -> Seq<char> {
    HOOK_HEAD@ + u + "/repos/"@ + n + HOOK_MIDDLE@ + u + "/work/"@ + n + HOOK_TAIL@
        + "chmod +x /home/"@ + u + "/repos/"@ + n + ".git/hooks/post-receive\nchown -R "@ + u + ":"@ + u
        + " /home/"@ + u + "/repos/"@ + n + ".git\nmkdir -p /home/"@ + u + "/work/"@ + n
        + "\ngit --git-dir=/home/"@ + u + "/repos/"@ + n + ".git config core.bare false\ngit --git-dir=/home/"@
        + u + "/repos/"@ + n + ".git config core.worktree /home/"@ + u + "/work/"@ + n
        + "\ngit --git-dir=/home/"@ + u + "/repos/"@ + n
        + ".git config receive.denyCurrentBranch updateInstead\necho 'gitdir: /home/"@ + u + "/repos/"@ + n
        + ".git' > /home/"@ + u + "/work/"@ + n + "/.git\nchown -R "@ + u + ":"@ + u + " /home/"@ + u
        + "/work/"@ + n
        + "\n\necho 'Configuring login message...'\nchmod -x /etc/update-motd.d/* 2>/dev/null || true\n"@
        + MOTD_HEAD@ + n + MOTD_TAIL@ + "chmod +x /etc/update-motd.d/99-ec2-cli\n\n"@
}

/// The project repository, when a project is named.
pub open spec fn project_stage(u: Seq<char>, project: Option<Seq<char>>) -> Seq<char> {
    match project {
        Some(n) => project_intro(n) + bare_init_line(u, n) + project_setup(u, n) + scaffold_ready_line(u),
        None => Seq::empty(),
    }
}

/// System package installation.
pub open spec fn packages_stage(system: Seq<Seq<char>>) -> Seq<char> {
    PACKAGES_MARKER@ + packages_body(system)
}

pub open spec fn packages_body(system: Seq<Seq<char>>) -> Seq<char> {
    if system.len() == 0 {
        "apt-get update\n"@
    } else {
        "apt-get update\n"@ + "apt-get install -y "@ + join_words(system) + "\n\n"@
    }
}

/// Toolchain installation and toolchain-scoped packages, when enabled.
pub open spec fn rust_stage(
    u: Seq<char>,
    enabled: bool,
    channel: Seq<char>,
    components: Seq<Seq<char>>,
    cargo: Seq<Seq<char>>,
) -> Seq<char> {
    if !enabled {
        Seq::empty()
    } else {
        "echo 'Installing Rust...'\nsu - "@ + u + " -c '\n"@ + RUSTUP_COMMAND@
            + (if channel == "stable"@ { Seq::empty() } else { " --default-toolchain "@ + channel })
            + "\nsource ~/.cargo/env\n"@
            + (if components.len() == 0 {
                Seq::empty()
            } else {
                "rustup component add "@ + join_words(components) + "\n"@
            }) + "'\n\n"@ + cargo_stage(u, cargo)
    }
}

pub open spec fn cargo_stage(u: Seq<char>, cargo: Seq<Seq<char>>) -> Seq<char> {
    if cargo.len() == 0 {
        Seq::empty()
    } else {
        "echo 'Installing cargo packages...'\nsu - "@ + u + " -c '\nsource ~/.cargo/env\n"@
            + cargo_lines(cargo) + "'\n\n"@
    }
}

/// Environment export into the login shell profile, when any is set.
pub open spec fn env_stage(u: Seq<char>, env: Seq<(Seq<char>, Seq<char>)>) -> Seq<char> {
    if env.len() == 0 {
        Seq::empty()
    } else {
        "echo 'Setting environment variables...'\ncat >> /home/"@ + u + "/.bashrc << 'ENVEOF'\n"@
            + export_lines(env) + "ENVEOF\n\n"@
    }
}

/// Developer tool installation.
pub open spec fn tools_stage(u: Seq<char>) -> Seq<char> {
    APPARMOR_STAGE@ + "echo 'Installing AgentFS...'\nsu - "@ + u
        + " -c 'curl -fsSL https://agentfs.ai/install.sh | bash'\n\n"@
}

/// The readiness marker, written last.
pub open spec fn ready_line(u: Seq<char>) -> Seq<char> {
    "touch /home/"@ + u + "/.ec2-cli-ready\n"@
}

pub open spec fn final_stage(u: Seq<char>) -> Seq<char> {
    "echo 'ec2-cli initialization complete!'\n"@ + ready_line(u)
}

/// The script up to and including the stage that creates the container group.
pub open spec fn script_early(
    u: Seq<char>,
    project: Option<Seq<char>>,
    key: Option<Seq<char>>,
    name: Option<Seq<char>>,
    email: Option<Seq<char>>,
) -> Seq<char> {
    SCRIPT_HEADER@ + key_stage(u, key) + identity_stage(u, name, email) + scaffold_stage(u)
        + docker_group_stage(u)
}

/// The bootstrap script for the given profile and inputs.
pub open spec fn bootstrap_script(
    profile: Profile,
    project: Option<Seq<char>>,
    u: Seq<char>,
    key: Option<Seq<char>>,
    name: Option<Seq<char>>,
    email: Option<Seq<char>>,
) -> Seq<char> {
    script_early(u, project, key, name, email) + project_stage(u, project) + AGENT_STAGE@
        + packages_stage(texts(profile.packages.system@)) + DOCKER_STAGE@ + rust_stage(
        u,
        profile.packages.rust.enabled,
        profile.packages.rust.channel@,
        texts(profile.packages.rust.components@),
        texts(profile.packages.cargo@),
    ) + env_stage(u, profile.environment@) + tools_stage(u) + final_stage(u)
}

/// Every text of `ws` is shell-safe.
pub open spec fn all_shell_safe(ws: Seq<Seq<char>>) -> bool {
    forall|i: int| 0 <= i < ws.len() ==> is_shell_safe(#[trigger] ws[i])
}

/// Every environment entry has a valid name and a shell-safe value.
pub open spec fn env_entries_ok(es: Seq<(Seq<char>, Seq<char>)>) -> bool {
    forall|i: int| 0 <= i < es.len() ==> is_env_key((#[trigger] es[i]).0) && is_shell_safe(es[i].1)
}

/// Whether the inputs of the bootstrap script pass validation.
pub open spec fn bootstrap_inputs_ok(
    profile: Profile,
    project: Option<Seq<char>>,
    u: Seq<char>,
    key: Option<Seq<char>>,
    name: Option<Seq<char>>,
    email: Option<Seq<char>>,
) -> bool {
    &&& is_username(u)
    &&& (key is Some ==> !key->Some_0.contains('\n') && !key->Some_0.contains('\r'))
    &&& (name is Some ==> is_identity_value(name->Some_0))
    &&& (email is Some ==> is_identity_value(email->Some_0))
    &&& (project is Some ==> is_project_name(project->Some_0))
    &&& all_shell_safe(texts(profile.packages.system@))
    &&& (profile.packages.rust.enabled ==> one_of(profile.packages.rust.channel@, rust_channels()))
    &&& (profile.packages.rust.enabled ==> all_shell_safe(texts(profile.packages.rust.components@))
        && all_shell_safe(texts(profile.packages.cargo@)))
    &&& env_entries_ok(profile.environment@)
}

// ---------------------------------------------------------------------------
// Building the script
// ---------------------------------------------------------------------------

fn join_texts(v: &Vec<String>) -> (r: String)
    ensures
        r@ == join_words(texts(v@)),
{
    let ghost ws = texts(v@);
    let mut r = String::new();
    let mut i: usize = 0;
    while i < v.len()
        invariant
            i <= v@.len(),
            ws == texts(v@),
            r@ == join_words(ws.take(i as int)),
        decreases v@.len() - i,
    {
        let ghost before = r@;
        if i > 0 {
            append(&mut r, " ");
        }
        append(&mut r, v[i].as_str());
        proof {
            let t = ws.take(i + 1);
            assert(t.drop_last() =~= ws.take(i as int));
            if i == 0 {
                assert(r@ =~= t[0]);
            }
        }
        i += 1;
    }
    assert(ws.take(v@.len() as int) =~= ws);
    r
}

fn cargo_install_lines(v: &Vec<String>) -> (r: String)
    ensures
        r@ == cargo_lines(texts(v@)),
{
    let ghost ws = texts(v@);
    let mut r = String::new();
    let mut i: usize = 0;
    while i < v.len()
        invariant
            i <= v@.len(),
            ws == texts(v@),
            r@ == cargo_lines(ws.take(i as int)),
        decreases v@.len() - i,
    {
        append(&mut r, "cargo install ");
        append(&mut r, v[i].as_str());
        append(&mut r, "\n");
        proof {
            assert(ws.take(i + 1).drop_last() =~= ws.take(i as int));
        }
        i += 1;
    }
    assert(ws.take(v@.len() as int) =~= ws);
    r
}

fn export_env_lines(env: &crate::strmap::StringMap) -> (r: String)
    ensures
        r@ == export_lines(env@),
{
    let mut r = String::new();
    let mut i: usize = 0;
    let n = env.len();
    while i < n
        invariant
            i <= n,
            n == env@.len(),
            r@ == export_lines(env@.take(i as int)),
        decreases n - i,
    {
        append(&mut r, "export ");
        append(&mut r, env.key_at(i).as_str());
        append(&mut r, "=\"");
        append(&mut r, env.value_at(i).as_str());
        append(&mut r, "\"\n");
        proof {
            assert(env@.take(i + 1).drop_last() =~= env@.take(i as int));
        }
        i += 1;
    }
    assert(env@.take(n as int) =~= env@);
    r
}

fn build_key_stage(u: &str, key: Option<&str>) -> (r: String)
    ensures
        r@ == key_stage(u@, opt_view(key)),
{
    match key {
        Some(k) => {
            let mut b = concat2("mkdir -p /home/", u);
            append(&mut b, "/.ssh\ncat >> /home/");
            append(&mut b, u);
            append(&mut b, "/.ssh/authorized_keys << 'SSHEOF'\n");
            append(&mut b, k);
            append(&mut b, "\nSSHEOF\nchmod 700 /home/");
            append(&mut b, u);
            append(&mut b, "/.ssh\nchmod 600 /home/");
            append(&mut b, u);
            append(&mut b, "/.ssh/authorized_keys\nchown -R ");
            append(&mut b, u);
            append(&mut b, ":");
            append(&mut b, u);
            append(&mut b, " /home/");
            append(&mut b, u);
            append(&mut b, "/.ssh\n\n");
            concat2(KEY_MARKER, b.as_str())
        },
        None => String::new(),
    }
}

fn build_identity_line(u: &str, field: &str, v: Option<&str>) -> (r: String)
    ensures
        r@ == identity_line(u@, field@, opt_view(v)),
{
    match v {
        Some(x) => {
            let mut r = concat2("su - ", u);
            append(&mut r, " -c 'git config --global user.");
            append(&mut r, field);
            append(&mut r, " \"");
            append(&mut r, x);
            append(&mut r, "\"'\n");
            r
        },
        None => String::new(),
    }
}

fn build_identity_stage(u: &str, name: Option<&str>, email: Option<&str>) -> (r: String)
    ensures
        r@ == identity_stage(u@, opt_view(name), opt_view(email)),
{
    if name.is_none() && email.is_none() {
        return String::new();
    }
    let mut r = owned(IDENTITY_MARKER);
    let n = build_identity_line(u, "name", name);
    append(&mut r, n.as_str());
    let e = build_identity_line(u, "email", email);
    append(&mut r, e.as_str());
    append(&mut r, "\n");
    r
}

fn build_scaffold_stage(u: &str) -> (r: String)
    ensures
        r@ == scaffold_stage(u@),
{
    let mut b = concat2("mkdir -p /home/", u);
    append(&mut b, "/repos\nmkdir -p /home/");
    append(&mut b, u);
    append(&mut b, "/work\nchown -R ");
    append(&mut b, u);
    append(&mut b, ":");
    append(&mut b, u);
    append(&mut b, " /home/");
    append(&mut b, u);
    append(&mut b, "/repos /home/");
    append(&mut b, u);
    append(&mut b, "/work\n\n");
    concat2(SCAFFOLD_MARKER, b.as_str())
}

fn build_docker_group_stage(u: &str) -> (r: String)
    ensures
        r@ == docker_group_stage(u@),
{
    let mut b = concat2("groupadd -f docker\nusermod -aG docker ", u);
    append(&mut b, "\n\n");
    concat2(DOCKER_GROUP_MARKER, b.as_str())
}

fn build_project_setup(u: &str, n: &str) -> (r: String)
    ensures
        r@ == project_setup(u@, n@),
{
    let mut r = concat2(HOOK_HEAD, u);
    append(&mut r, "/repos/");
    append(&mut r, n);
    append(&mut r, HOOK_MIDDLE);
    append(&mut r, u);
    append(&mut r, "/work/");
    append(&mut r, n);
    append(&mut r, HOOK_TAIL);
    append(&mut r, "chmod +x /home/");
    append(&mut r, u);
    append(&mut r, "/repos/");
    append(&mut r, n);
    append(&mut r, ".git/hooks/post-receive\nchown -R ");
    append(&mut r, u);
    append(&mut r, ":");
    append(&mut r, u);
    append(&mut r, " /home/");
    append(&mut r, u);
    append(&mut r, "/repos/");
    append(&mut r, n);
    append(&mut r, ".git\nmkdir -p /home/");
    append(&mut r, u);
    append(&mut r, "/work/");
    append(&mut r, n);
    append(&mut r, "\ngit --git-dir=/home/");
    append(&mut r, u);
    append(&mut r, "/repos/");
    append(&mut r, n);
    append(&mut r, ".git config core.bare false\ngit --git-dir=/home/");
    append(&mut r, u);
    append(&mut r, "/repos/");
    append(&mut r, n);
    append(&mut r, ".git config core.worktree /home/");
    append(&mut r, u);
    append(&mut r, "/work/");
    append(&mut r, n);
    append(&mut r, "\ngit --git-dir=/home/");
    append(&mut r, u);
    append(&mut r, "/repos/");
    append(&mut r, n);
    append(&mut r, ".git config receive.denyCurrentBranch updateInstead\necho 'gitdir: /home/");
    append(&mut r, u);
    append(&mut r, "/repos/");
    append(&mut r, n);
    append(&mut r, ".git' > /home/");
    append(&mut r, u);
    append(&mut r, "/work/");
    append(&mut r, n);
    append(&mut r, "/.git\nchown -R ");
    append(&mut r, u);
    append(&mut r, ":");
    append(&mut r, u);
    append(&mut r, " /home/");
    append(&mut r, u);
    append(&mut r, "/work/");
    append(&mut r, n);
    append(&mut r, "\n\necho 'Configuring login message...'\nchmod -x /etc/update-motd.d/* 2>/dev/null || true\n");
    append(&mut r, MOTD_HEAD);
    append(&mut r, n);
    append(&mut r, MOTD_TAIL);
    append(&mut r, "chmod +x /etc/update-motd.d/99-ec2-cli\n\n");
    r
}

fn build_project_stage(u: &str, project: Option<&str>) -> (r: String)
    ensures
        r@ == project_stage(u@, opt_view(project)),
{
    match project {
        Some(n) => {
            let mut r = concat2("echo 'Setting up git repo for ", n);
            append(&mut r, "...'\n");
            let mut init = concat2("su - ", u);
            append(&mut init, " -c 'git init --bare /home/");
            append(&mut init, u);
            append(&mut init, "/repos/");
            append(&mut init, n);
            append(&mut init, ".git'\n");
            append(&mut r, init.as_str());
            let setup = build_project_setup(u, n);
            append(&mut r, setup.as_str());
            let mut ready = concat2("touch /home/", u);
            append(&mut ready, "/.ec2-cli-git-ready\n\n");
            append(&mut r, ready.as_str());
            r
        },
        None => String::new(),
    }
}

fn build_packages_stage(system: &Vec<String>) -> (r: String)
    ensures
        r@ == packages_stage(texts(system@)),
{
    let mut b = owned("apt-get update\n");
    if system.len() > 0 {
        append(&mut b, "apt-get install -y ");
        let words = join_texts(system);
        append(&mut b, words.as_str());
        append(&mut b, "\n\n");
    }
    concat2(PACKAGES_MARKER, b.as_str())
}

fn build_cargo_stage(u: &str, cargo: &Vec<String>) -> (r: String)
    ensures
        r@ == cargo_stage(u@, texts(cargo@)),
{
    if cargo.len() == 0 {
        return String::new();
    }
    let mut r = concat2("echo 'Installing cargo packages...'\nsu - ", u);
    append(&mut r, " -c '\nsource ~/.cargo/env\n");
    let lines = cargo_install_lines(cargo);
    append(&mut r, lines.as_str());
    append(&mut r, "'\n\n");
    r
}

fn build_rust_stage(u: &str, rust: &crate::profile::RustConfig, cargo: &Vec<String>) -> (r: String)
    ensures
        r@ == rust_stage(u@, rust.enabled, rust.channel@, texts(rust.components@), texts(cargo@)),
{
    if !rust.enabled {
        return String::new();
    }
    let mut r = concat2("echo 'Installing Rust...'\nsu - ", u);
    append(&mut r, " -c '\n");
    append(&mut r, RUSTUP_COMMAND);
    let channel = if same_text(rust.channel.as_str(), "stable") {
        String::new()
    } else {
        concat2(" --default-toolchain ", rust.channel.as_str())
    };
    append(&mut r, channel.as_str());
    append(&mut r, "\nsource ~/.cargo/env\n");
    let components = if rust.components.len() == 0 {
        String::new()
    } else {
        let mut c = owned("rustup component add ");
        let words = join_texts(&rust.components);
        append(&mut c, words.as_str());
        append(&mut c, "\n");
        c
    };
    append(&mut r, components.as_str());
    append(&mut r, "'\n\n");
    let cargo_part = build_cargo_stage(u, cargo);
    append(&mut r, cargo_part.as_str());
    r
}

fn build_env_stage(u: &str, env: &crate::strmap::StringMap) -> (r: String)
    ensures
        r@ == env_stage(u@, env@),
{
    if env.is_empty() {
        return String::new();
    }
    let mut r = concat2("echo 'Setting environment variables...'\ncat >> /home/", u);
    append(&mut r, "/.bashrc << 'ENVEOF'\n");
    let lines = export_env_lines(env);
    append(&mut r, lines.as_str());
    append(&mut r, "ENVEOF\n\n");
    r
}

fn build_tools_stage(u: &str) -> (r: String)
    ensures
        r@ == tools_stage(u@),
{
    let mut r = concat2(APPARMOR_STAGE, "echo 'Installing AgentFS...'\nsu - ");
    append(&mut r, u);
    append(&mut r, " -c 'curl -fsSL https://agentfs.ai/install.sh | bash'\n\n");
    r
}

fn build_final_stage(u: &str) -> (r: String)
    ensures
        r@ == final_stage(u@),
{
    let mut line = concat2("touch /home/", u);
    append(&mut line, "/.ec2-cli-ready\n");
    concat2("echo 'ec2-cli initialization complete!'\n", line.as_str())
}

// ---------------------------------------------------------------------------
// Validation
// ---------------------------------------------------------------------------

fn validate_all_shell_safe(v: &Vec<String>, context: &str) -> (r: Result<()>)
    ensures
        r is Ok <==> all_shell_safe(texts(v@)),
        r is Err ==> r->Err_0 is ProfileValidation,
{
    let mut i: usize = 0;
    while i < v.len()
        invariant
            i <= v@.len(),
            forall|j: int| 0 <= j < i ==> is_shell_safe(#[trigger] texts(v@)[j]),
        decreases v@.len() - i,
    {
        let checked = validate_shell_safe(v[i].as_str(), context);
        if checked.is_err() {
            assert(!is_shell_safe(texts(v@)[i as int]));
            return checked;
        }
        i += 1;
    }
    Ok(())
}

fn validate_env_entries(env: &crate::strmap::StringMap) -> (r: Result<()>)
    ensures
        r is Ok <==> env_entries_ok(env@),
        r is Err ==> r->Err_0 is ProfileValidation,
{
    let n = env.len();
    let mut i: usize = 0;
    while i < n
        invariant
            i <= n,
            n == env@.len(),
            forall|j: int| 0 <= j < i ==> is_env_key((#[trigger] env@[j]).0) && is_shell_safe(env@[j].1),
        decreases n - i,
    {
        let k = validate_env_key(env.key_at(i).as_str());
        if k.is_err() {
            return k;
        }
        let v = validate_shell_safe(env.value_at(i).as_str(), "environment variable value");
        if v.is_err() {
            return v;
        }
        i += 1;
    }
    Ok(())
}

fn optional_text(o: &Option<String>) -> (r: Option<&str>)
    ensures
        opt_view(r) == opt_string_view(*o),
{
    match o {
        Some(s) => Some(s.as_str()),
        None => None,
    }
}

/// Builds the first-boot script for `profile`, run as `username`, with an optional
/// project repository, trusted key and VCS identity. Every free-text input is
/// validated first; any invalid input gives a `ProfileValidation` error. The key's
/// format is checked where it is loaded; here it must only hold no line break,
/// which could end the here-document it is written into. The toolchain channel
/// must be one of the known channels.
pub fn generate_user_data(
    profile: &Profile,
    project_name: Option<&str>,
    username: &str,
    ssh_public_key: Option<&str>,
    git_user_config: Option<&GitUserConfig>,
) -> (r: Result<String>)
    ensures
        r is Ok <==> bootstrap_inputs_ok(
            *profile,
            opt_view(project_name),
            username@,
            opt_view(ssh_public_key),
            identity_of(git_user_config).0,
            identity_of(git_user_config).1,
        ),
        r is Ok ==> r->Ok_0@ == bootstrap_script(
            *profile,
            opt_view(project_name),
            username@,
            opt_view(ssh_public_key),
            identity_of(git_user_config).0,
            identity_of(git_user_config).1,
        ),
        r is Err ==> r->Err_0 is ProfileValidation,
{
    let (name, email) = match git_user_config {
        Some(c) => (optional_text(&c.name), optional_text(&c.email)),
        None => (None, None),
    };
    if let Err(e) = validate_username(username) {
        return Err(e);
    }
    if let Some(n) = name {
        if let Err(e) = validate_git_config_value(n, "git user.name") {
            return Err(e);
        }
    }
    if let Some(m) = email {
        if let Err(e) = validate_git_config_value(m, "git user.email") {
            return Err(e);
        }
    }
    if let Some(p) = project_name {
        if let Err(e) = validate_project_name(p) {
            return Err(e);
        }
    }
    if let Some(k) = ssh_public_key {
        if has_line_break(k) {
            return Err(Ec2CliError::ProfileValidation(owned("SSH public key must be a single line")));
        }
    }
    if let Err(e) = validate_all_shell_safe(&profile.packages.system, "system package name") {
        return Err(e);
    }
    if profile.packages.rust.enabled {
        let channels = ["stable", "beta", "nightly"];
        assert(channels@.map_values(|o: &str| o@) =~= rust_channels());
        if !is_one_of(profile.packages.rust.channel.as_str(), &channels) {
            return Err(Ec2CliError::ProfileValidation(concat2("Invalid Rust channel: ",
                profile.packages.rust.channel.as_str())));
        }
        if let Err(e) = validate_all_shell_safe(&profile.packages.rust.components, "rust component") {
            return Err(e);
        }
        if let Err(e) = validate_all_shell_safe(&profile.packages.cargo, "cargo package name") {
            return Err(e);
        }
    }
    if let Err(e) = validate_env_entries(&profile.environment) {
        return Err(e);
    }
    let mut script = owned(SCRIPT_HEADER);
    let stage = build_key_stage(username, ssh_public_key);
    append(&mut script, stage.as_str());
    let stage = build_identity_stage(username, name, email);
    append(&mut script, stage.as_str());
    let stage = build_scaffold_stage(username);
    append(&mut script, stage.as_str());
    let stage = build_docker_group_stage(username);
    append(&mut script, stage.as_str());
    let stage = build_project_stage(username, project_name);
    append(&mut script, stage.as_str());
    append(&mut script, AGENT_STAGE);
    let stage = build_packages_stage(&profile.packages.system);
    append(&mut script, stage.as_str());
    append(&mut script, DOCKER_STAGE);
    let stage = build_rust_stage(username, &profile.packages.rust, &profile.packages.cargo);
    append(&mut script, stage.as_str());
    let stage = build_env_stage(username, &profile.environment);
    append(&mut script, stage.as_str());
    let stage = build_tools_stage(username);
    append(&mut script, stage.as_str());
    let stage = build_final_stage(username);
    append(&mut script, stage.as_str());
    Ok(script)
}

// ---------------------------------------------------------------------------
// Ordering of the stages
// ---------------------------------------------------------------------------

/// Whether `s` ends with `m`.
pub open spec fn has_suffix(s: Seq<char>, m: Seq<char>) -> bool {
    m.len() <= s.len() && s.subrange(s.len() - m.len(), s.len() as int) == m
}

/// Whether an occurrence of `a` in `s` starts before an occurrence of `b`.
pub open spec fn precedes(s: Seq<char>, a: Seq<char>, b: Seq<char>) -> bool {
    exists|i: int, j: int| i < j && #[trigger] occurs_at(s, a, i) && #[trigger] occurs_at(s, b, j)
}

proof fn lemma_occurs_after(a: Seq<char>, m: Seq<char>, b: Seq<char>)
    ensures
        occurs_at(a + (m + b), m, a.len() as int),
{
    assert((a + (m + b)).subrange(a.len() as int, (a.len() + m.len()) as int) =~= m);
}

proof fn lemma_occurs_at_end(a: Seq<char>, m: Seq<char>)
    ensures
        occurs_at(a + m, m, a.len() as int),
{
    assert((a + m).subrange(a.len() as int, (a.len() + m.len()) as int) =~= m);
}

proof fn lemma_occurs_prepend(t: Seq<char>, s: Seq<char>, m: Seq<char>, i: int)
    requires
        occurs_at(s, m, i),
    ensures
        occurs_at(t + s, m, t.len() + i),
{
    assert((t + s).subrange(t.len() + i, t.len() + i + m.len()) =~= s.subrange(i, i + m.len()));
}

broadcast proof fn lemma_occurs_append(s: Seq<char>, m: Seq<char>, i: int, t: Seq<char>)
    requires
        occurs_at(s, m, i),
    ensures
        #[trigger] occurs_at(s + t, m, i),
{
    assert((s + t).subrange(i, i + m.len()) =~= s.subrange(i, i + m.len()));
}

/// Stage-order law of the bootstrap script, on the stage marker lines: with a
/// trusted key, an occurrence of the key marker line precedes an occurrence of
/// the package marker line; so do the scaffold and container-group marker
/// lines; with a project, an occurrence of the bare-repository initialisation
/// line precedes an occurrence of the scaffold-ready marker line; and the script
/// ends with the line that writes the readiness marker. For first occurrences of
/// the key and package phrases see `lemma_key_phrase_first`.
pub proof fn lemma_stage_order(
    profile: Profile,
    project: Option<Seq<char>>,
    u: Seq<char>,
    key: Option<Seq<char>>,
    name: Option<Seq<char>>,
    email: Option<Seq<char>>,
)
    ensures
        key is Some ==> precedes(
            bootstrap_script(profile, project, u, key, name, email),
            KEY_MARKER@,
            PACKAGES_MARKER@,
        ),
        precedes(bootstrap_script(profile, project, u, key, name, email), SCAFFOLD_MARKER@, PACKAGES_MARKER@),
        precedes(
            bootstrap_script(profile, project, u, key, name, email),
            DOCKER_GROUP_MARKER@,
            PACKAGES_MARKER@,
        ),
        project is Some ==> precedes(
            bootstrap_script(profile, project, u, key, name, email),
            bare_init_line(u, project->Some_0),
            scaffold_ready_line(u),
        ),
        has_suffix(bootstrap_script(profile, project, u, key, name, email), ready_line(u)),
{
    broadcast use lemma_occurs_append;

    let script = bootstrap_script(profile, project, u, key, name, email);
    let h = SCRIPT_HEADER@;
    let k = key_stage(u, key);
    let id = identity_stage(u, name, email);
    let early = script_early(u, project, key, name, email);
    let p = project_stage(u, project);
    let before_packages = early + p + AGENT_STAGE@;
    let system = texts(profile.packages.system@);
    let rest_rust = rust_stage(
        u,
        profile.packages.rust.enabled,
        profile.packages.rust.channel@,
        texts(profile.packages.rust.components@),
        texts(profile.packages.cargo@),
    );
    let rest = DOCKER_STAGE@ + rest_rust;
    // The package marker.
    let j = before_packages.len() as int;
    lemma_occurs_after(before_packages, PACKAGES_MARKER@, packages_body(system));
    assert(occurs_at(script, PACKAGES_MARKER@, j));
    // The scaffold marker.
    let pre_scaffold = h + k + id;
    lemma_occurs_after(pre_scaffold, SCAFFOLD_MARKER@, scaffold_body(u));
    let i_scaffold = pre_scaffold.len() as int;
    assert(occurs_at(script, SCAFFOLD_MARKER@, i_scaffold));
    reveal_strlit("/work\n\n");
    assert(i_scaffold < j);
    // The container-group marker.
    let pre_group = h + k + id + scaffold_stage(u);
    lemma_occurs_after(pre_group, DOCKER_GROUP_MARKER@, docker_group_body(u));
    let i_group = pre_group.len() as int;
    assert(occurs_at(script, DOCKER_GROUP_MARKER@, i_group));
    reveal_strlit("\n\n");
    assert(i_group < j);
    // The trusted-key marker.
    if let Some(kv) = key {
        lemma_occurs_after(h, KEY_MARKER@, key_body(u, kv));
        assert(occurs_at(script, KEY_MARKER@, h.len() as int));
        assert((h.len() as int) < j);
    }
    // The repository markers.
    if let Some(n) = project {
        let intro = project_intro(n);
        let init = bare_init_line(u, n);
        let setup = project_setup(u, n);
        let ready = scaffold_ready_line(u);
        lemma_occurs_at_end(intro, init);
        assert(occurs_at(intro + init + setup, init, intro.len() as int));
        lemma_occurs_at_end(intro + init + setup, ready);
        lemma_occurs_prepend(early, p, init, intro.len() as int);
        lemma_occurs_prepend(early, p, ready, (intro + init + setup).len() as int);
        let a = (early.len() + intro.len()) as int;
        let b = (early.len() + (intro + init + setup).len()) as int;
        assert(occurs_at(script, init, a));
        assert(occurs_at(script, ready, b));
        reveal_strlit(".git'\n");
        assert(a < b);
    }
    // The readiness marker.
    let last = ready_line(u);
    assert(script.subrange(script.len() - last.len(), script.len() as int) =~= last);
}

/// The phrase of the trusted-key installation marker.
pub const KEY_PHRASE: &'static str = "Configuring SSH public key";

/// The phrase of the package-installation marker.
pub const PACKAGES_PHRASE: &'static str = "Installing system packages";

/// No character of `s` from index `i` on is `c`.
pub open spec fn no_char_from(s: Seq<char>, c: char, i: int) -> bool
    decreases s.len() - i,
{
    if i < 0 || i >= s.len() {
        true
    } else {
        s[i] != c && no_char_from(s, c, i + 1)
    }
}

proof fn lemma_no_char(s: Seq<char>, c: char, i: int, q: int)
    requires
        no_char_from(s, c, i),
        0 <= i <= q < s.len(),
    ensures
        s[q] != c,
    decreases q - i,
{
    if i < q {
        lemma_no_char(s, c, i + 1, q);
    }
}

proof fn lemma_marker_phrases()
    ensures
        KEY_MARKER@.len() == 37,
        KEY_MARKER@.subrange(6, 32) == KEY_PHRASE@,
        PACKAGES_MARKER@.len() == 37,
        PACKAGES_MARKER@.subrange(6, 32) == PACKAGES_PHRASE@,
        PACKAGES_PHRASE@.len() == 26,
        PACKAGES_PHRASE@[0] == 'I',
{
    reveal_strlit("echo 'Configuring SSH public key...'\n");
    reveal_strlit("echo 'Installing system packages...'\n");
    reveal_strlit("Configuring SSH public key");
    reveal_strlit("Installing system packages");
    assert(KEY_MARKER@.subrange(6, 32) =~= KEY_PHRASE@);
    assert(PACKAGES_MARKER@.subrange(6, 32) =~= PACKAGES_PHRASE@);
}

proof fn lemma_header_has_no_capital_i()
    ensures
        no_char_from(SCRIPT_HEADER@, 'I', 0),
{
    reveal_strlit("#!/bin/bash\nset -ex\n\nexec > >(tee /var/log/ec2-cli-init.log) 2>&1\n\n");
    reveal_with_fuel(no_char_from, 80);
}

proof fn lemma_key_marker_has_no_capital_i()
    ensures
        no_char_from(KEY_MARKER@, 'I', 0),
{
    reveal_strlit("echo 'Configuring SSH public key...'\n");
    reveal_with_fuel(no_char_from, 40);
}

/// Key-before-packages law on first occurrences: with a trusted key, the key
/// phrase occurs six characters after the header, and the package phrase occurs
/// somewhere but nowhere at or before that index; so the first occurrence of the
/// key phrase precedes the first occurrence of the package phrase.
#[verifier::rlimit(50)]
pub proof fn lemma_key_phrase_first(
    profile: Profile,
    project: Option<Seq<char>>,
    u: Seq<char>,
    key: Option<Seq<char>>,
    name: Option<Seq<char>>,
    email: Option<Seq<char>>,
)
    requires
        key is Some,
    ensures
        occurs_at(
            bootstrap_script(profile, project, u, key, name, email),
            KEY_PHRASE@,
            (SCRIPT_HEADER@.len() + 6) as int,
        ),
        exists|j: int| occurs_at(bootstrap_script(profile, project, u, key, name, email), PACKAGES_PHRASE@, j),
        forall|p: int|
            p <= (SCRIPT_HEADER@.len() + 6) as int ==> !occurs_at(
                bootstrap_script(profile, project, u, key, name, email),
                PACKAGES_PHRASE@,
                p,
            ),
{
    broadcast use lemma_occurs_append;

    lemma_marker_phrases();
    lemma_header_has_no_capital_i();
    lemma_key_marker_has_no_capital_i();
    let script = bootstrap_script(profile, project, u, key, name, email);
    let h = SCRIPT_HEADER@;
    let k = KEY_MARKER@;
    let kb = key_body(u, key->Some_0);
    assert(key_stage(u, key) == k + kb);
    let hk = h + (k + kb);
    // The key phrase.
    let i = (h.len() + 6) as int;
    assert(occurs_at(hk, KEY_PHRASE@, i)) by {
        assert(hk.subrange(i, i + 26) =~= k.subrange(6, 32));
    }
    assert(occurs_at(script, KEY_PHRASE@, i));
    // The package phrase.
    let before_packages = script_early(u, project, key, name, email) + project_stage(u, project)
        + AGENT_STAGE@;
    let pm = PACKAGES_MARKER@;
    let pb = packages_body(texts(profile.packages.system@));
    let j = (before_packages.len() + 6) as int;
    assert(occurs_at(before_packages + (pm + pb), PACKAGES_PHRASE@, j)) by {
        assert((before_packages + (pm + pb)).subrange(j, j + 26) =~= pm.subrange(6, 32));
    }
    assert(occurs_at(script, PACKAGES_PHRASE@, j));
    // Nothing at or before the key phrase starts the package phrase.
    assert forall|p: int| p <= i implies !occurs_at(script, PACKAGES_PHRASE@, p) by {
        if occurs_at(script, PACKAGES_PHRASE@, p) {
            assert(script.subrange(p, p + 26)[0] == PACKAGES_PHRASE@[0]);
            if p < h.len() {
                lemma_no_char(h, 'I', 0, p);
            } else {
                lemma_no_char(k, 'I', 0, p - h.len());
            }
            assert(script[p] == hk[p]);
        }
    }
}

} // verus!
