use ec2_cli::git::{
    classify_ssh_config, detect_vcs, generate_ssh_config_block, get_remote_url, GitUserConfig,
    SshConfigStatus, VcsType,
};

#[test]
fn test_has_config_empty() {
    let config = GitUserConfig::default();
    assert!(!config.has_config());
}

#[test]
fn test_has_config_with_name() {
    let config = GitUserConfig {
        name: Some("John Doe".to_string()),
        email: None,
    };
    assert!(config.has_config());
}

#[test]
fn test_has_config_with_email() {
    let config = GitUserConfig {
        name: None,
        email: Some("john@example.com".to_string()),
    };
    assert!(config.has_config());
}

#[test]
fn test_has_config_with_both() {
    let config = GitUserConfig {
        name: Some("John Doe".to_string()),
        email: Some("john@example.com".to_string()),
    };
    assert!(config.has_config());
}

#[test]
fn test_get_remote_url() {
    let url = get_remote_url("i-123456", "my-project");
    assert_eq!(url, "ec2-user@i-123456:/home/ec2-user/repos/my-project.git");
}

#[test]
fn test_generate_ssh_config() {
    let config = generate_ssh_config_block();
    assert!(config.contains("Host i-*"));
    assert!(config.contains("ProxyCommand"));
    assert!(config.contains("ssm"));
}

#[test]
fn ssh_config_classification() {
    assert_eq!(classify_ssh_config(None), SshConfigStatus::Missing);
    assert_eq!(classify_ssh_config(Some("")), SshConfigStatus::NeedsConfiguration);
    assert_eq!(
        classify_ssh_config(Some(&generate_ssh_config_block())),
        SshConfigStatus::Configured
    );
    assert_eq!(
        classify_ssh_config(Some("Host mi-*\n  ProxyCommand aws ssm start-session")),
        SshConfigStatus::Configured
    );
    assert_eq!(
        classify_ssh_config(Some("Host i-*\n  User ubuntu")),
        SshConfigStatus::NeedsConfiguration
    );
    assert_eq!(SshConfigStatus::NeedsConfiguration.as_str(), "needs configuration");
}

#[test]
fn vcs_detection_prefers_jj() {
    assert_eq!(detect_vcs(true, true), Some(VcsType::Jj));
    assert_eq!(detect_vcs(false, true), Some(VcsType::Git));
    assert_eq!(detect_vcs(false, false), None);
    assert_eq!(VcsType::Jj.as_str(), "jj");
}

#[test]
fn remote_url_in_user_home() {
    assert_eq!(
        ec2_cli::git::get_user_remote_url("ubuntu", "i-0abc", "proj"),
        "ubuntu@i-0abc:/home/ubuntu/repos/proj.git"
    );
}
