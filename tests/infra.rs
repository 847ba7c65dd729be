use ec2_cli::error::Ec2CliError;
use ec2_cli::infra::{
    fnv1a_hash, instance_profile_name, machine_hash, machine_hash_of, needs_propagation_delay,
    plan_trust_role, resolve_infrastructure, resolve_network, trust_role_name, ResolutionLookups,
    TrustRolePlan, TrustRoleState, observe_trust_role, trust_role_request, LookupOutcome,
    machine_hash_from,
};

#[test]
fn fnv1a_known_values() {
    assert_eq!(fnv1a_hash(""), 0xcbf29ce484222325);
    assert_eq!(fnv1a_hash("a"), 0xaf63dc4c8601ec8c);
    assert_eq!(fnv1a_hash("foobar"), 0x85944171f73967e8);
}

#[test]
fn machine_fingerprint_is_low_hex_word() {
    assert_eq!(machine_hash_of(""), "84222325");
    assert_eq!(machine_hash_of("a"), "8601ec8c");
    let h = machine_hash();
    assert_eq!(h.len(), 8);
    assert!(h.chars().all(|c| c.is_ascii_hexdigit() && !c.is_ascii_uppercase()));
    assert_eq!(trust_role_name("8601ec8c"), "ec2-cli-instance-role-8601ec8c");
    assert_eq!(instance_profile_name("8601ec8c"), "ec2-cli-instance-profile-8601ec8c");
}

#[test]
fn network_resolution() {
    let ok = resolve_network(None, Some("vpc-d"), Some("subnet-1"), Some("vpc-d")).unwrap();
    assert_eq!(ok, ("vpc-d".to_string(), "subnet-1".to_string()));
    let ok = resolve_network(Some("vpc-c"), Some("vpc-d"), Some("subnet-1"), Some("vpc-c")).unwrap();
    assert_eq!(ok.0, "vpc-c");
    assert!(matches!(
        resolve_network(Some("vpc-c"), None, Some("subnet-1"), Some("vpc-d")),
        Err(Ec2CliError::SubnetMismatch(_))
    ));
    assert!(matches!(resolve_network(None, None, Some("s"), Some("v")), Err(Ec2CliError::ResourceNotFound(_))));
    assert!(matches!(resolve_network(Some("v"), None, None, None), Err(Ec2CliError::Config(_))));
    assert!(matches!(resolve_network(Some("v"), None, Some("s"), None), Err(Ec2CliError::ResourceNotFound(_))));
}

#[test]
fn second_resolution_changes_nothing() {
    let empty = TrustRoleState {
        role_exists: false,
        managed_policy_attached: false,
        inline_policy_present: false,
        profile_exists: false,
        profile_has_role: false,
    };
    let plan = plan_trust_role(empty);
    assert_eq!(
        plan,
        TrustRolePlan {
            create_role: true,
            attach_managed_policy: true,
            delete_inline_policies: false,
            create_profile: true,
            add_role_to_profile: true
        }
    );
    assert!(needs_propagation_delay(plan));
    let done = TrustRoleState {
        role_exists: true,
        managed_policy_attached: true,
        inline_policy_present: false,
        profile_exists: true,
        profile_has_role: true,
    };
    assert!(!needs_propagation_delay(plan_trust_role(done)));
    let partial = TrustRoleState { profile_has_role: false, ..done };
    let p = plan_trust_role(partial);
    assert!(p.add_role_to_profile && !p.create_profile && !p.create_role);
}

fn lookups(arn: Option<&str>) -> ResolutionLookups {
    ResolutionLookups {
        configured_vpc: None,
        default_vpc: Some("vpc-d".to_string()),
        subnet_id: Some("subnet-1".to_string()),
        subnet_vpc: Some("vpc-d".to_string()),
        trust_role: TrustRoleState {
            role_exists: true,
            managed_policy_attached: true,
            inline_policy_present: false,
            profile_exists: true,
            profile_has_role: true,
        },
        instance_profile_arn: arn.map(String::from),
        instance_profile_name: "ec2-cli-instance-profile-8601ec8c".to_string(),
    }
}

#[test]
fn resolving_twice_gives_identical_infrastructure() {
    let first = resolve_infrastructure(&lookups(Some("arn:aws:iam::1:instance-profile/x"))).unwrap();
    let second = resolve_infrastructure(&lookups(Some("arn:aws:iam::1:instance-profile/x"))).unwrap();
    assert_eq!(first.vpc_id, "vpc-d");
    assert_eq!(first.subnet_id, "subnet-1");
    assert_eq!(
        (first.vpc_id, first.subnet_id, first.instance_profile_arn),
        (second.vpc_id, second.subnet_id, second.instance_profile_arn)
    );
    assert!(matches!(resolve_infrastructure(&lookups(None)), Err(Ec2CliError::ResourceNotFound(_))));
}

#[test]
fn trust_role_request_is_minimal() {
    let r = trust_role_request("8601ec8c");
    assert_eq!(r.role_name, "ec2-cli-instance-role-8601ec8c");
    assert_eq!(r.instance_profile_name, "ec2-cli-instance-profile-8601ec8c");
    assert_eq!(
        r.assume_role_policy_document,
        r#"{"Version":"2012-10-17","Statement":[{"Effect":"Allow","Principal":{"Service":"ec2.amazonaws.com"},"Action":"sts:AssumeRole"}]}"#
    );
    assert_eq!(r.managed_policy_arn, "arn:aws:iam::aws:policy/AmazonSSMManagedInstanceCore");
}

#[test]
fn lookups_classify_and_legacy_inline_policy_is_removed() {
    let s = observe_trust_role(LookupOutcome::Found, true, true, LookupOutcome::Found, true).unwrap();
    let p = plan_trust_role(s);
    assert!(p.delete_inline_policies && !p.create_role && !p.attach_managed_policy);
    assert!(needs_propagation_delay(p));
    let s = observe_trust_role(LookupOutcome::NotFound, true, true, LookupOutcome::NotFound, true).unwrap();
    assert!(!s.managed_policy_attached && !s.inline_policy_present && !s.profile_has_role);
    let r = observe_trust_role(
        LookupOutcome::Failed(Ec2CliError::Api("AccessDenied".to_string())),
        false,
        false,
        LookupOutcome::NotFound,
        false,
    );
    assert!(matches!(r, Err(Ec2CliError::Api(_))));
}

#[test]
fn unreadable_host_name_falls_back() {
    assert_eq!(machine_hash_from(None), machine_hash_of("unknown"));
    assert_eq!(machine_hash_from(Some("a")), "8601ec8c");
}
