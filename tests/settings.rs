use ec2_cli::error::Ec2CliError;
use ec2_cli::settings::Settings;

#[test]
fn test_validate_tag_key_valid() {
    assert!(Settings::validate_tag_key("Username").is_ok());
    assert!(Settings::validate_tag_key("Project").is_ok());
    assert!(Settings::validate_tag_key("my-tag-123").is_ok());
}

#[test]
fn test_validate_tag_key_invalid() {
    assert!(Settings::validate_tag_key("").is_err());
    assert!(Settings::validate_tag_key("aws:reserved").is_err());
    assert!(Settings::validate_tag_key(&"a".repeat(129)).is_err());
    assert!(Settings::validate_tag_key("tag\nkey").is_err());
}

#[test]
fn test_validate_tag_value_valid() {
    assert!(Settings::validate_tag_value("myvalue").is_ok());
    assert!(Settings::validate_tag_value("").is_ok()); // Empty is allowed
    assert!(Settings::validate_tag_value("value with spaces").is_ok());
}

#[test]
fn test_validate_tag_value_invalid() {
    assert!(Settings::validate_tag_value(&"a".repeat(257)).is_err());
    assert!(Settings::validate_tag_value("value\nwith\nnewlines").is_err());
}

#[test]
fn test_set_tag() {
    let mut settings = Settings::default();
    assert!(settings.set_tag("Username", "testuser").is_ok());
    assert_eq!(settings.tags.get("Username"), Some(&"testuser".to_string()));
}

#[test]
fn test_remove_tag() {
    let mut settings = Settings::default();
    settings.tags.insert("Username".to_string(), "testuser".to_string());
    let removed = settings.remove_tag("Username");
    assert_eq!(removed, Some("testuser".to_string()));
    assert!(!settings.tags.contains_key("Username"));
}

#[test]
fn test_has_username_tag() {
    let mut settings = Settings::default();
    assert!(!settings.has_username_tag());
    settings.tags.insert("Username".to_string(), "testuser".to_string());
    assert!(settings.has_username_tag());
}

#[test]
fn tag_key_limits_are_exact() {
    assert!(Settings::validate_tag_key(&"a".repeat(128)).is_ok());
    assert!(Settings::validate_tag_key("aws").is_ok());
    assert!(matches!(Settings::validate_tag_key("aws:x"), Err(Ec2CliError::Config(_))));
    assert!(Settings::validate_tag_value(&"a".repeat(256)).is_ok());
    assert!(Settings::validate_tag_value("caf\u{e9}").is_err());
}

#[test]
fn set_tag_replaces_in_place_and_rejects_bad_input() {
    let mut settings = Settings::default();
    settings.set_tag("A", "1").unwrap();
    settings.set_tag("B", "2").unwrap();
    settings.set_tag("A", "3").unwrap();
    assert_eq!(settings.tags.len(), 2);
    assert_eq!(settings.tags.key_at(0), "A");
    assert_eq!(settings.tags.value_at(0), "3");
    assert!(matches!(settings.set_tag("aws:x", "v"), Err(Ec2CliError::Config(_))));
    assert!(settings.set_tag("C", "bad\tvalue").is_err());
    assert_eq!(settings.tags.len(), 2);
    assert_eq!(settings.remove_tag("missing"), None);
}

#[test]
fn region_format() {
    assert!(Settings::validate_region("us-east-1").is_ok());
    assert!(Settings::validate_region("ap-southeast-2").is_ok());
    assert!(Settings::validate_region("us-gov-west-1").is_ok());
    assert!(Settings::validate_region("us-east-+1").is_ok());
    assert!(matches!(Settings::validate_region("useast1"), Err(Ec2CliError::Config(_))));
    assert!(Settings::validate_region("us-east").is_err());
    assert!(Settings::validate_region("us-east-x").is_err());
    assert!(Settings::validate_region("us-east-").is_err());
    assert!(Settings::validate_region("us-east-4294967296").is_err());
    assert!(Settings::validate_region("us-east-4294967295").is_ok());
}

#[test]
fn vpc_id_format() {
    assert!(Settings::validate_vpc_id("vpc-12345678").is_ok());
    assert!(Settings::validate_vpc_id("vpc-0123456789abcdefA").is_ok());
    assert!(matches!(Settings::validate_vpc_id("vpc-1234567"), Err(Ec2CliError::Config(_))));
    assert!(Settings::validate_vpc_id("vpx-12345678").is_err());
    assert!(Settings::validate_vpc_id("vpc-1234567g").is_err());
}
