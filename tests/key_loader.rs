use ec2_cli::error::Ec2CliError;
use ec2_cli::ssh_key::{trim_text, validate_ssh_key_format};

#[test]
fn test_validate_rsa_key() {
    // Realistic RSA key length (truncated for readability but >= 100 chars base64)
    let key = "ssh-rsa AAAAB3NzaC1yc2EAAAADAQABAAABgQDKJv9EJa0VR5n5x5X5x5X5x5X5x5X5x5X5x5X5x5X5x5X5x5X5x5X5x5X5x5X5x5X5x5X5x5X5x5X5x5X5x5X5x5X5x5X5x5X5x5 user@host";
    assert!(validate_ssh_key_format(key).is_ok());
}

#[test]
fn test_validate_ed25519_key() {
    // Real ed25519 key (68 chars base64)
    let key = "ssh-ed25519 AAAAC3NzaC1lZDI1NTE5AAAAIGxxxxxxxxxxxxxxxxxxxxxxxxxxxxxxxxxxxxxxxxxxx user@host";
    assert!(validate_ssh_key_format(key).is_ok());
}

#[test]
fn test_validate_ecdsa_key() {
    let key = "ecdsa-sha2-nistp256 AAAAE2VjZHNhLXNoYTItbmlzdHAyNTYAAAAIbmlzdHAyNTYAAABBBFxxxxxxxxxxxxxxxxxxxxxxxxxxxxxxxxxxxxxxxxxxxxxxxxxxxxxxxxx user@host";
    assert!(validate_ssh_key_format(key).is_ok());
}

#[test]
fn test_invalid_key_format() {
    let key = "not-a-valid-key";
    assert!(validate_ssh_key_format(key).is_err());
}

#[test]
fn test_empty_key() {
    assert!(validate_ssh_key_format("").is_err());
    assert!(validate_ssh_key_format("   ").is_err());
}

#[test]
fn test_key_without_data() {
    let key = "ssh-rsa";
    assert!(validate_ssh_key_format(key).is_err());
}

#[test]
fn test_key_too_short() {
    // Less than 50 chars base64
    let key = "ssh-rsa AAAAB3NzaC1yc2EAAAADAQABAAABgQDK user@host";
    assert!(validate_ssh_key_format(key).is_err());
}

#[test]
fn test_multiline_key_rejected() {
    let key = "ssh-ed25519 AAAAC3NzaC1lZDI1NTE5AAAAIFxxxxxxxxxxxxxxxxxxxxxxxxxxxxxxxxxxxxxxxxxxxxxxxxxxxxxxxxxxxxxxxxxxxxx user1\nssh-rsa AAAAB3NzaC1yc2EAAAADAQABAAABgQDKx user2";
    assert!(validate_ssh_key_format(key).is_err());
}

#[test]
fn test_key_with_embedded_newline_rejected() {
    let key = "ssh-ed25519 AAAAC3NzaC1lZDI1NTE5AAAAIFxxxxxxxxxxxxxxxxxxxxxxxxxxxxxxxxxxxxxxxxxxxxxxxxxxxxxxxxxxxxxxxxxxxxx user@host\nexec bash";
    assert!(validate_ssh_key_format(key).is_err());
}

#[test]
fn test_invalid_base64_characters() {
    let key = "ssh-rsa AAAAB3NzaC1yc2!@#$%^&*()EAAAADAQABAAABgQDKJv9EJa0VR5n5x5X5x5X5x5X5x5X5x5X5x5X5x5X5x5X5x5X5 user@host";
    assert!(validate_ssh_key_format(key).is_err());
}

#[test]
fn key_surrounding_whitespace_is_trimmed() {
    assert_eq!(trim_text("  ab c \n"), "ab c");
    assert_eq!(trim_text(" \t "), "");
    let key = format!("  ssh-ed25519 {}  \n", "A".repeat(50));
    assert!(validate_ssh_key_format(&key).is_ok());
    let short = format!("ssh-ed25519 {}", "A".repeat(49));
    assert!(matches!(validate_ssh_key_format(&short), Err(Ec2CliError::SshKeyInvalid(_))));
    let no_space = format!("ssh-ed25519\t{}", "A".repeat(60));
    assert!(validate_ssh_key_format(&no_space).is_err());
}
