use ec2_cli::error::Ec2CliError;
use ec2_cli::profile::Profile;
use ec2_cli::shell::{validate_env_key, validate_git_config_value, validate_shell_safe, validate_username};

#[test]
fn default_profile_values() {
    let profile = Profile::default_profile();
    assert_eq!(profile.name, "default");
    assert_eq!(profile.instance.instance_type, "t3.large");
    assert_eq!(profile.instance.fallback_types, vec!["t3.medium".to_string()]);
    assert_eq!(profile.instance.storage.root_volume.size_gb, 30);
    assert_eq!(profile.packages.system.len(), 4);
    assert!(profile.packages.rust.enabled);
    profile.validate().unwrap();
}

#[test]
fn profile_validation_errors() {
    let base = Profile::default_profile();
    let mut p = base.clone();
    p.instance.storage.root_volume.size_gb = 7;
    assert!(matches!(p.validate(), Err(Ec2CliError::ProfileValidation(_))));
    let mut p = base.clone();
    p.instance.storage.root_volume.size_gb = 16385;
    assert!(p.validate().is_err());
    p.instance.storage.root_volume.size_gb = 16384;
    assert!(p.validate().is_ok());
    let mut p = base.clone();
    p.instance.storage.root_volume.volume_type = "gp9".to_string();
    assert!(p.validate().is_err());
    let mut p = base.clone();
    p.instance.ami.architecture = "riscv".to_string();
    assert!(p.validate().is_err());
    let mut p = base.clone();
    p.instance.ami.ami_type = "fedora".to_string();
    assert!(p.validate().is_err());
    p.instance.ami.id = Some("ami-1".to_string());
    assert!(p.validate().is_ok());
    let mut p = base.clone();
    p.packages.rust.channel = "1.80".to_string();
    assert!(p.validate().is_err());
    p.packages.rust.enabled = false;
    assert!(p.validate().is_ok());
    let mut p = base;
    p.name = String::new();
    assert!(p.validate().is_err());
}

#[test]
fn every_metacharacter_is_rejected() {
    for c in [';', '&', '|', '$', '`', '(', ')', '{', '}', '[', ']', '<', '>', '\'', '"', '\\', '\n', '\r', '!', '#', '*', '?', '~'] {
        let s = format!("ab{}cd", c);
        assert!(matches!(validate_shell_safe(&s, "value"), Err(Ec2CliError::ProfileValidation(_))));
        assert!(validate_git_config_value(&s, "identity").is_err());
    }
    assert!(validate_shell_safe("", "value").is_err());
    assert!(validate_shell_safe("libssl-dev_1.0", "value").is_ok());
    assert!(validate_git_config_value("John Doe+x@example.com", "identity").is_ok());
}

#[test]
fn env_keys_and_usernames() {
    assert!(validate_env_key("_A1").is_ok());
    assert!(validate_env_key("1A").is_err());
    assert!(validate_env_key("A-B").is_err());
    assert!(validate_env_key("").is_err());
    assert!(validate_username("ubuntu").is_ok());
    assert!(validate_username("_svc-1").is_ok());
    assert!(validate_username("9lives").is_err());
    assert!(validate_username("-x").is_err());
    assert!(validate_username("a-x").is_ok());
}
