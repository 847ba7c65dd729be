use ec2_cli::infra::{assemble_infrastructure, Infrastructure};
use ec2_cli::launch::{build_launch_request, create_tags};
use ec2_cli::profile::Profile;
use ec2_cli::strmap::StringMap;

fn infra() -> Infrastructure {
    assemble_infrastructure(
        ("vpc-1".to_string(), "subnet-1".to_string()),
        "arn:aws:iam::1:instance-profile/p".to_string(),
        "p".to_string(),
    )
}

#[test]
fn launch_request_is_hardened() {
    let profile = Profile::default_profile();
    assert_eq!(profile.instance.storage.root_volume.size_gb, 30);
    assert!(profile.instance.ami.id.is_none());
    let r = build_launch_request(&infra(), "sg-9", &profile, "web", "ami-1", "abc", &StringMap::new());
    assert!(r.encrypted);
    assert_eq!(r.metadata_hop_limit, 1);
    assert!(r.http_tokens_required);
    assert!(r.metadata_endpoint_enabled);
    assert!(r.delete_on_termination);
    assert_eq!(r.volume_size_gb, 30);
    assert_eq!(r.volume_type, "gp3");
    assert_eq!(r.iops, Some(3000));
    assert_eq!(r.throughput, Some(125));
    assert_eq!(r.device_name, "/dev/sda1");
    assert_eq!(r.image_id, "ami-1");
    assert_eq!(r.subnet_id, "subnet-1");
    assert_eq!(r.security_group_id, "sg-9");
    assert_eq!(r.instance_profile_arn, "arn:aws:iam::1:instance-profile/p");
    assert_eq!(r.user_data_base64, "YWJj");
}

#[test]
fn user_data_is_base64_encoded() {
    let profile = Profile::default_profile();
    let r = build_launch_request(&infra(), "sg", &profile, "n", "ami", "#!/bin/bash\n", &StringMap::new());
    assert_eq!(r.user_data_base64, "IyEvYmluL2Jhc2gK");
    let r = build_launch_request(&infra(), "sg", &profile, "n", "ami", "", &StringMap::new());
    assert_eq!(r.user_data_base64, "");
}

#[test]
fn tags_are_standard_then_custom() {
    let mut custom = StringMap::new();
    custom.insert("Team".to_string(), "infra".to_string());
    let tags = create_tags("web", &custom);
    let pairs: Vec<(String, String)> = tags.into_iter().map(|t| (t.key, t.value)).collect();
    assert_eq!(
        pairs,
        vec![
            ("ec2-cli:managed".to_string(), "true".to_string()),
            ("ec2-cli:name".to_string(), "web".to_string()),
            ("Name".to_string(), "ec2-cli-web".to_string()),
            ("deployment".to_string(), "ec2-cli".to_string()),
            ("Team".to_string(), "infra".to_string()),
        ]
    );
}
