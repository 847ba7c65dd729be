use ec2_cli::ami::{ami_query, latest_image_index, lookup_ami, text_before, AmiSource, ImageCandidate};
use ec2_cli::error::Ec2CliError;
use ec2_cli::profile::Profile;

fn image(id: &str, date: &str) -> ImageCandidate {
    ImageCandidate { image_id: id.to_string(), creation_date: date.to_string() }
}

#[test]
fn supported_families_build_catalog_queries() {
    let mut profile = Profile::default_profile();
    for (family, arch, pattern) in [
        ("ubuntu-24.04", "x86_64", "ubuntu/images/hvm-ssd-gp3/ubuntu-noble-24.04-amd64-server-*"),
        ("ubuntu-24.04", "arm64", "ubuntu/images/hvm-ssd-gp3/ubuntu-noble-24.04-arm64-server-*"),
        ("ubuntu-22.04", "x86_64", "ubuntu/images/hvm-ssd/ubuntu-jammy-22.04-amd64-server-*"),
        ("ubuntu-22.04", "arm64", "ubuntu/images/hvm-ssd/ubuntu-jammy-22.04-arm64-server-*"),
    ] {
        profile.instance.ami.ami_type = family.to_string();
        profile.instance.ami.architecture = arch.to_string();
        match ami_query(&profile.instance.ami) {
            Ok(AmiSource::Catalog(q)) => {
                assert_eq!(q.owner, "099720109477");
                assert_eq!(q.name_pattern, pattern);
            }
            other => panic!("unexpected {:?}", other),
        }
    }
}

#[test]
fn unknown_family_is_a_validation_error() {
    let mut profile = Profile::default_profile();
    profile.instance.ami.ami_type = "debian-12".to_string();
    let images = vec![image("ami-1", "2024-01-01T00:00:00.000Z")];
    match lookup_ami(&profile, &images) {
        Err(Ec2CliError::ProfileValidation(m)) => assert!(m.contains("debian-12")),
        other => panic!("unexpected {:?}", other),
    }
}

#[test]
fn explicit_image_id_is_returned_unchanged() {
    let mut profile = Profile::default_profile();
    profile.instance.ami.id = Some("ami-explicit".to_string());
    profile.instance.ami.ami_type = "anything".to_string();
    assert_eq!(lookup_ami(&profile, &vec![]).unwrap(), "ami-explicit");
}

#[test]
fn newest_image_is_chosen() {
    let profile = Profile::default_profile();
    let images = vec![
        image("ami-old", "2024-01-05T10:00:00.000Z"),
        image("ami-new", "2024-03-01T09:00:00.000Z"),
    ];
    assert_eq!(lookup_ami(&profile, &images).unwrap(), "ami-new");
    let images = vec![
        image("ami-b", "2023-12-31T23:59:59.000Z"),
        image("ami-a", "2024-06-01T00:00:00.000Z"),
        image("ami-c", "2024-02-01T00:00:00.000Z"),
    ];
    assert_eq!(latest_image_index(&images), Some(1));
    assert_eq!(lookup_ami(&profile, &images).unwrap(), "ami-a");
}

#[test]
fn no_images_is_not_found() {
    let profile = Profile::default_profile();
    match lookup_ami(&profile, &vec![]) {
        Err(Ec2CliError::ResourceNotFound(m)) => assert_eq!(m, "No AMI found matching ubuntu-24.04 for x86_64"),
        other => panic!("unexpected {:?}", other),
    }
}

#[test]
fn lexicographic_order() {
    assert!(text_before("2024-01-01", "2024-01-02"));
    assert!(!text_before("2024-01-02", "2024-01-01"));
    assert!(text_before("2024", "2024-01"));
    assert!(!text_before("abc", "abc"));
    assert!(text_before("", "a"));
}
