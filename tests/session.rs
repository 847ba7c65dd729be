use ec2_cli::error::Ec2CliError;
use ec2_cli::session::{
    new_security_group_name, parse_paths, security_group_description, security_group_name,
    ssm_ssh_command, validate_profile_name,
};

#[test]
fn ssh_command_without_identity() {
    assert_eq!(
        ssm_ssh_command(None),
        "ssh -o 'ProxyCommand=sh -c \"aws ssm start-session --target %h --document-name AWS-StartSSHSession --parameters portNumber=%p\"' -o StrictHostKeyChecking=no -o UserKnownHostsFile=/dev/null"
    );
}

#[test]
fn ssh_command_quotes_identity_path() {
    let cmd = ssm_ssh_command(Some("/home/o'neil/.ssh/id"));
    assert!(cmd.starts_with("ssh -i '/home/o'\\''neil/.ssh/id' -o 'ProxyCommand="));
}

#[test]
fn copy_paths() {
    assert_eq!(
        parse_paths("a.txt", ":/tmp/a.txt").unwrap(),
        ("a.txt".to_string(), "/tmp/a.txt".to_string(), true)
    );
    assert_eq!(
        parse_paths(":/tmp/b", "b").unwrap(),
        ("b".to_string(), "/tmp/b".to_string(), false)
    );
    assert!(matches!(parse_paths(":a", ":b"), Err(Ec2CliError::InvalidPath(_))));
    assert!(matches!(parse_paths("a", "b"), Err(Ec2CliError::InvalidPath(_))));
}

#[test]
fn profile_names() {
    assert!(validate_profile_name("my-profile").is_ok());
    assert!(validate_profile_name("my_profile").is_ok());
    assert!(validate_profile_name("MyProfile123").is_ok());
    assert!(validate_profile_name("pr\u{f3}file").is_ok());
    assert!(validate_profile_name("").is_err());
    assert!(validate_profile_name("..").is_err());
    assert!(validate_profile_name("profile/subdir").is_err());
    assert!(matches!(validate_profile_name("profile\\subdir"), Err(Ec2CliError::ProfileInvalid(_))));
}

#[test]
fn security_group_names_are_unique() {
    assert_eq!(security_group_name("web", "1a2b3c4d"), "ec2-cli-web-1a2b3c4d");
    let a = new_security_group_name("web");
    let b = new_security_group_name("web");
    assert!(a.starts_with("ec2-cli-web-"));
    assert_eq!(a.len(), "ec2-cli-web-".len() + 8);
    assert!(a["ec2-cli-web-".len()..].chars().all(|c| c.is_ascii_hexdigit() && !c.is_ascii_uppercase()));
    assert_ne!(a, b);
    assert_eq!(security_group_description("web"), "Security group for ec2-cli instance web");
}

#[test]
fn proxy_command_targets_host_and_port() {
    assert_eq!(
        ec2_cli::session::SSM_PROXY_COMMAND,
        "sh -c \"aws ssm start-session --target %h --document-name AWS-StartSSHSession --parameters portNumber=%p\""
    );
}

#[test]
fn ascii_profile_names_follow_the_ascii_rule() {
    for ok in ["a", "A-b_9", "default"] {
        assert!(validate_profile_name(ok).is_ok());
    }
    for bad in ["a.b", "a b", "a;b", "~"] {
        assert!(validate_profile_name(bad).is_err());
    }
}
