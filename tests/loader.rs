use ec2_cli::error::Ec2CliError;
use ec2_cli::loader::{extract_profile_name, merge_profile_listing, select_profile, ProfileSource};
use ec2_cli::profile::Profile;
use ec2_cli::session::validate_profile_name;

fn named(name: &str) -> Profile {
    let mut p = Profile::default_profile();
    p.name = name.to_string();
    p
}

#[test]
fn profile_precedence() {
    let r = select_profile("dev", Some(named("local")), Some(named("global"))).unwrap();
    assert_eq!(r.name, "local");
    let r = select_profile("dev", None, Some(named("global"))).unwrap();
    assert_eq!(r.name, "global");
    let r = select_profile("default", None, None).unwrap();
    assert_eq!(r.name, "default");
    assert_eq!(r.instance.instance_type, "t3.large");
    assert!(matches!(select_profile("nonexistent-profile-xyz", None, None), Err(Ec2CliError::ProfileNotFound(_))));
    assert!(matches!(select_profile("../../../etc/passwd", None, None), Err(Ec2CliError::ProfileInvalid(_))));
    assert!(select_profile("..", Some(named("x")), None).is_err());
}

#[test]
fn profile_file_names() {
    assert_eq!(extract_profile_name("rust-dev.json5"), Some("rust-dev".to_string()));
    assert_eq!(extract_profile_name("a.json"), Some("a".to_string()));
    assert_eq!(extract_profile_name("a.b.json"), Some("a.b".to_string()));
    assert_eq!(extract_profile_name(".json"), None);
    assert_eq!(extract_profile_name("a.toml"), None);
    assert_eq!(extract_profile_name("noext"), None);
}

#[test]
fn listing_merge() {
    let local = vec![("dev".to_string(), "/l/dev.json5".to_string())];
    let global = vec![
        ("dev".to_string(), "/g/dev.json".to_string()),
        ("ml".to_string(), "/g/ml.json".to_string()),
    ];
    let r = merge_profile_listing(&local, &global);
    let names: Vec<&str> = r.iter().map(|p| p.name.as_str()).collect();
    assert_eq!(names, vec!["dev", "ml", "default"]);
    assert_eq!(r[0].source, ProfileSource::Local);
    assert_eq!(r[0].path.as_deref(), Some("/l/dev.json5"));
    assert_eq!(r[2].source, ProfileSource::BuiltIn);
    assert_eq!(r[2].path, None);
    let only_default = merge_profile_listing(&vec![("default".to_string(), "/l/default.json".to_string())], &vec![]);
    assert_eq!(only_default.len(), 1);
    assert_eq!(only_default[0].source.as_str(), "local");
}

#[test]
fn test_default_profile() {
    let profile = select_profile("default", None, None).unwrap();
    assert_eq!(profile.name, "default");
    assert_eq!(profile.instance.instance_type, "t3.large");
    assert_eq!(profile.instance.storage.root_volume.size_gb, 30);
    profile.validate().unwrap();
}

#[test]
fn test_profile_not_found() {
    let result = select_profile("nonexistent-profile-xyz", None, None);
    assert!(matches!(result, Err(Ec2CliError::ProfileNotFound(_))));
}

#[test]
fn test_path_traversal_prevention() {
    // Should reject path traversal attempts
    assert!(select_profile("../../../etc/passwd", None, None).is_err());
    assert!(select_profile("..", None, None).is_err());
    assert!(select_profile("profile/subdir", None, None).is_err());
    assert!(select_profile("profile\\subdir", None, None).is_err());

    // Should accept valid profile names
    assert!(validate_profile_name("my-profile").is_ok());
    assert!(validate_profile_name("my_profile").is_ok());
    assert!(validate_profile_name("MyProfile123").is_ok());
}
