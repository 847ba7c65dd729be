use ec2_cli::error::Ec2CliError;
use ec2_cli::git::GitUserConfig;
use ec2_cli::profile::Profile;
use ec2_cli::shell::validate_project_name;
use ec2_cli::user_data::generate_user_data;

#[test]
fn test_generate_basic_user_data() {
    let profile = Profile::default_profile();
    let script =
        generate_user_data(&profile, Some("test-project"), "ubuntu", None, None).unwrap();

    assert!(script.contains("#!/bin/bash"));
    assert!(script.contains("rustup"));
    assert!(script.contains("git init --bare"));
    assert!(script.contains("test-project"));
    assert!(script.contains(".ec2-cli-ready"));
    assert!(script.contains("docker.io"));
    assert!(script.contains("usermod -aG docker ubuntu"));
}

#[test]
fn test_generate_without_project() {
    let profile = Profile::default_profile();
    let script = generate_user_data(&profile, None, "ubuntu", None, None).unwrap();

    assert!(script.contains("#!/bin/bash"));
    assert!(!script.contains("git init --bare"));
    assert!(script.contains("docker.io"));
}

#[test]
fn test_generate_with_ubuntu_user() {
    let profile = Profile::default_profile();
    let script = generate_user_data(&profile, Some("myproject"), "ubuntu", None, None).unwrap();

    assert!(script.contains("su - ubuntu"));
    assert!(script.contains("/home/ubuntu/"));
    assert!(!script.contains("ec2-user"));
}

#[test]
fn test_generate_with_ssh_key() {
    let profile = Profile::default_profile();
    // Use a realistic key length (at least 50 chars base64)
    let ssh_key = "ssh-ed25519 AAAAC3NzaC1lZDI1NTE5AAAAIGxxxxxxxxxxxxxxxxxxxxxxxxxxxxxxxxxxxxxxxxxxx user@example.com";
    let script = generate_user_data(
        &profile,
        Some("test-project"),
        "ubuntu",
        Some(ssh_key),
        None,
    )
    .unwrap();

    assert!(script.contains("mkdir -p /home/ubuntu/.ssh"));
    assert!(script.contains("authorized_keys"));
    assert!(script.contains(ssh_key));
    assert!(script.contains("chmod 700 /home/ubuntu/.ssh"));
    assert!(script.contains("chmod 600 /home/ubuntu/.ssh/authorized_keys"));
    assert!(script.contains("chown -R ubuntu:ubuntu /home/ubuntu/.ssh"));
}

#[test]
fn test_generate_without_ssh_key() {
    let profile = Profile::default_profile();
    let script = generate_user_data(&profile, None, "ubuntu", None, None).unwrap();

    assert!(!script.contains("Configuring SSH public key"));
    assert!(!script.contains("authorized_keys"));
}

#[test]
fn test_ssh_key_injected_before_package_installation() {
    // Ensure SSH key is available immediately when SSM reports ready,
    // not after package installation (which can take minutes)
    let profile = Profile::default_profile();
    let ssh_key = "ssh-ed25519 AAAAC3NzaC1lZDI1NTE5AAAAIGxxxxxxxxxxxxxxxxxxxxxxxxxxxxxxxxxxxxxxxxxxx user@example.com";
    let script = generate_user_data(
        &profile,
        Some("test-project"),
        "ubuntu",
        Some(ssh_key),
        None,
    )
    .unwrap();

    let ssh_config_pos = script
        .find("Configuring SSH public key")
        .expect("SSH config not found");
    let package_install_pos = script
        .find("Installing system packages")
        .expect("package installation not found");

    assert!(
        ssh_config_pos < package_install_pos,
        "SSH key setup must occur before package installation to avoid race condition"
    );
}

#[test]
fn test_git_ready_marker_created_after_repo_setup() {
    let profile = Profile::default_profile();
    let script =
        generate_user_data(&profile, Some("test-project"), "ubuntu", None, None).unwrap();

    let repo_setup_pos = script.find("git init --bare").expect("git init not found");
    let marker_pos = script.find(".ec2-cli-git-ready").expect("marker not found");

    assert!(
        marker_pos > repo_setup_pos,
        "Marker file must be created after git repo setup"
    );
}

#[test]
fn test_docker_group_setup_before_package_installation() {
    let profile = Profile::default_profile();
    let script =
        generate_user_data(&profile, Some("test-project"), "ubuntu", None, None).unwrap();

    let docker_group_pos = script
        .find("Setting up docker group")
        .expect("docker group setup not found");
    let package_install_pos = script
        .find("Installing system packages")
        .expect("package installation not found");

    assert!(
        docker_group_pos < package_install_pos,
        "Docker group setup must occur before package installation"
    );
}

#[test]
fn test_docker_group_uses_force_flag() {
    let profile = Profile::default_profile();
    let script =
        generate_user_data(&profile, Some("test-project"), "ubuntu", None, None).unwrap();

    assert!(
        script.contains("groupadd -f docker"),
        "groupadd should use -f flag for idempotency"
    );
}

#[test]
fn test_generate_with_git_user_config() {
    let profile = Profile::default_profile();
    let git_config = GitUserConfig {
        name: Some("John Doe".to_string()),
        email: Some("john@example.com".to_string()),
    };
    let script = generate_user_data(
        &profile,
        Some("test-project"),
        "ubuntu",
        None,
        Some(&git_config),
    )
    .unwrap();

    assert!(script.contains("Configuring git user identity"));
    assert!(script.contains("git config --global user.name \"John Doe\""));
    assert!(script.contains("git config --global user.email \"john@example.com\""));
}

#[test]
fn test_generate_with_name_only_git_config() {
    let profile = Profile::default_profile();
    let git_config = GitUserConfig {
        name: Some("John Doe".to_string()),
        email: None,
    };
    let script = generate_user_data(
        &profile,
        Some("test-project"),
        "ubuntu",
        None,
        Some(&git_config),
    )
    .unwrap();

    assert!(script.contains("git config --global user.name \"John Doe\""));
    assert!(!script.contains("git config --global user.email"));
}

#[test]
fn test_generate_with_email_only_git_config() {
    let profile = Profile::default_profile();
    let git_config = GitUserConfig {
        name: None,
        email: Some("john@example.com".to_string()),
    };
    let script = generate_user_data(
        &profile,
        Some("test-project"),
        "ubuntu",
        None,
        Some(&git_config),
    )
    .unwrap();

    assert!(!script.contains("git config --global user.name"));
    assert!(script.contains("git config --global user.email \"john@example.com\""));
}

#[test]
fn test_generate_without_git_config() {
    let profile = Profile::default_profile();
    let script =
        generate_user_data(&profile, Some("test-project"), "ubuntu", None, None).unwrap();

    assert!(!script.contains("Configuring git user identity"));
}

#[test]
fn test_git_config_injection_blocked() {
    let profile = Profile::default_profile();
    let git_config = GitUserConfig {
        name: Some("John; rm -rf /".to_string()),
        email: None,
    };
    let result = generate_user_data(
        &profile,
        Some("test-project"),
        "ubuntu",
        None,
        Some(&git_config),
    );

    assert!(result.is_err());
}

#[test]
fn test_validate_project_name_valid() {
    assert!(validate_project_name("my-project").is_ok());
    assert!(validate_project_name("my_project").is_ok());
    assert!(validate_project_name("MyProject123").is_ok());
    assert!(validate_project_name("project.name").is_ok());
}

#[test]
fn test_validate_project_name_invalid() {
    assert!(validate_project_name("").is_err());
    assert!(validate_project_name("../etc/passwd").is_err());
    assert!(validate_project_name("project; rm -rf /").is_err());
    assert!(validate_project_name("-hidden").is_err());
    assert!(validate_project_name(".hidden").is_err());
    assert!(validate_project_name("a".repeat(65).as_str()).is_err());
}

#[test]
fn test_shell_injection_in_packages() {
    let mut profile = Profile::default_profile();
    profile.packages.system = vec!["gcc; rm -rf /".to_string()];

    let result = generate_user_data(&profile, None, "ubuntu", None, None);
    assert!(result.is_err());
}

#[test]
fn test_shell_injection_in_env_vars() {
    let mut profile = Profile::default_profile();
    profile
        .environment
        .insert("MALICIOUS".to_string(), "$(cat /etc/passwd)".to_string());

    let result = generate_user_data(&profile, None, "ubuntu", None, None);
    assert!(result.is_err());
}

#[test]
fn test_agentfs_installed_by_default() {
    let profile = Profile::default_profile();
    let script = generate_user_data(&profile, None, "ubuntu", None, None).unwrap();

    // Check AppArmor configuration
    assert!(script.contains("/etc/sysctl.d/99-agentfs.conf"));
    assert!(script.contains("kernel.apparmor_restrict_unprivileged_userns = 0"));
    assert!(script.contains("sysctl -p /etc/sysctl.d/99-agentfs.conf"));

    // Check AgentFS installation
    assert!(script.contains("Installing AgentFS"));
    assert!(script.contains("agentfs.ai/install.sh"));
}


#[test]
fn script_ends_with_readiness_marker() {
    let profile = Profile::default_profile();
    let script = generate_user_data(&profile, Some("p"), "ubuntu", None, None).unwrap();
    assert!(script.starts_with("#!/bin/bash\nset -ex\n"));
    assert!(script.ends_with("touch /home/ubuntu/.ec2-cli-ready\n"));
    assert_eq!(script.matches(".ec2-cli-ready").count(), 2);
}

#[test]
fn scaffold_and_group_before_packages() {
    let profile = Profile::default_profile();
    let script = generate_user_data(&profile, Some("p"), "dev", None, None).unwrap();
    let scaffold = script.find("Setting up git directories").unwrap();
    let init = script.find("git init --bare /home/dev/repos/p.git").unwrap();
    let packages = script.find("Installing system packages").unwrap();
    assert!(scaffold < packages);
    assert!(init < packages);
    assert!(script.contains("apt-get install -y build-essential libssl-dev pkg-config git\n"));
    assert!(script.contains("rustup component add rustfmt clippy\n"));
}

#[test]
fn post_receive_hook_checks_out_pushed_branch() {
    let profile = Profile::default_profile();
    let script = generate_user_data(&profile, Some("proj"), "ubuntu", None, None).unwrap();
    assert!(script.contains("cat > /home/ubuntu/repos/proj.git/hooks/post-receive << 'HOOKEOF'\n"));
    assert!(script.contains("branch=\"${refname#refs/heads/}\""));
    assert!(script.contains("GIT_WORK_TREE=/home/ubuntu/work/proj git checkout -f \"$branch\""));
    assert!(script.contains("│   Your Project ~/work/proj\n"));
}

#[test]
fn toolchain_channel_cargo_and_environment() {
    let mut profile = Profile::default_profile();
    profile.packages.rust.channel = "nightly".to_string();
    profile.packages.cargo = vec!["ripgrep".to_string(), "fd-find".to_string()];
    profile.environment.insert("EDITOR".to_string(), "vim".to_string());
    profile.environment.insert("RUST_LOG".to_string(), "debug".to_string());
    let script = generate_user_data(&profile, None, "ubuntu", None, None).unwrap();
    assert!(script.contains("sh -s -- -y --default-toolchain nightly\n"));
    assert!(script.contains("source ~/.cargo/env\ncargo install ripgrep\ncargo install fd-find\n'\n"));
    assert!(script.contains(
        "cat >> /home/ubuntu/.bashrc << 'ENVEOF'\nexport EDITOR=\"vim\"\nexport RUST_LOG=\"debug\"\nENVEOF\n"
    ));
}

#[test]
fn toolchain_disabled_skips_its_checks() {
    let mut profile = Profile::default_profile();
    profile.packages.rust.enabled = false;
    profile.packages.rust.components = vec!["bad;name".to_string()];
    let script = generate_user_data(&profile, None, "ubuntu", None, None).unwrap();
    assert!(!script.contains("rustup"));
}

#[test]
fn invalid_inputs_are_validation_errors() {
    let profile = Profile::default_profile();
    for user in ["", "1user", "-x", "us er", "root;"] {
        let r = generate_user_data(&profile, None, user, None, None);
        assert!(matches!(r, Err(Ec2CliError::ProfileValidation(_))));
    }
    let r = generate_user_data(&profile, Some("../x"), "ubuntu", None, None);
    assert!(matches!(r, Err(Ec2CliError::ProfileValidation(_))));
    let mut env = Profile::default_profile();
    env.environment.insert("1BAD".to_string(), "x".to_string());
    assert!(generate_user_data(&env, None, "ubuntu", None, None).is_err());
    let long = GitUserConfig { name: Some("a".repeat(257)), email: None };
    assert!(generate_user_data(&profile, None, "ubuntu", None, Some(&long)).is_err());
    let ok = GitUserConfig { name: Some("a".repeat(256)), email: Some("j.d+x@example.com".to_string()) };
    assert!(generate_user_data(&profile, None, "ubuntu", None, Some(&ok)).is_ok());
}

#[test]
fn project_name_edges() {
    assert!(validate_project_name(&"a".repeat(64)).is_ok());
    assert!(validate_project_name("a.b-c_d").is_ok());
    assert!(validate_project_name("caf\u{e9}").is_err());
}

#[test]
fn key_phrase_first_even_when_identity_repeats_package_phrase() {
    let profile = Profile::default_profile();
    let key = "ssh-ed25519 AAAAC3NzaC1lZDI1NTE5AAAAIGxxxxxxxxxxxxxxxxxxxxxxxxxxxxxxxxxxxxxxxxxxx Installing system packages";
    let identity = GitUserConfig { name: Some("Installing system packages".to_string()), email: None };
    let script = generate_user_data(&profile, None, "ubuntu", Some(key), Some(&identity)).unwrap();
    assert!(script.find("Configuring SSH public key").unwrap() < script.find("Installing system packages").unwrap());
}

#[test]
fn channel_must_be_known_when_toolchain_enabled() {
    let mut profile = Profile::default_profile();
    profile.packages.rust.channel = "nightly; rm -rf /".to_string();
    let r = generate_user_data(&profile, None, "ubuntu", None, None);
    assert!(matches!(r, Err(Ec2CliError::ProfileValidation(_))));
    profile.packages.rust.enabled = false;
    assert!(generate_user_data(&profile, None, "ubuntu", None, None).is_ok());
}

#[test]
fn key_with_line_break_cannot_end_heredoc() {
    let profile = Profile::default_profile();
    let r = generate_user_data(&profile, None, "ubuntu", Some("ssh-ed25519 AAAA x\nSSHEOF\nrm -rf /"), None);
    assert!(matches!(r, Err(Ec2CliError::ProfileValidation(_))));
    assert!(generate_user_data(&profile, None, "ubuntu", Some(""), None).is_ok());
}
