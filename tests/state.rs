use ec2_cli::error::Ec2CliError;
use ec2_cli::state::{get_username_for_ami, resolve_instance_name, State};

#[test]
fn test_state_operations() {
    let mut state = State::default();

    state.add_instance(
        "test-instance",
        "i-123456",
        "default",
        "us-west-2",
        "ubuntu",
        "sg-12345678",
        Some("/home/user/.ssh/id_ed25519"),
        1_700_000_000,
    );
    assert!(state.get_instance("test-instance").is_some());
    assert_eq!(
        state.get_instance("test-instance").unwrap().username,
        "ubuntu"
    );
    assert_eq!(
        state
            .get_instance("test-instance")
            .unwrap()
            .security_group_id,
        Some("sg-12345678".to_string())
    );
    assert_eq!(
        state.get_instance("test-instance").unwrap().ssh_key_path,
        Some("/home/user/.ssh/id_ed25519".to_string())
    );

    let removed = state.remove_instance("test-instance");
    assert!(removed.is_some());
    assert!(state.get_instance("test-instance").is_none());
}

#[test]
fn test_state_with_ubuntu_user() {
    let mut state = State::default();

    state.add_instance(
        "ubuntu-instance",
        "i-789",
        "ubuntu-profile",
        "us-east-1",
        "ubuntu",
        "sg-abc",
        None,
        1_700_000_000,
    );
    let instance = state.get_instance("ubuntu-instance").unwrap();
    assert_eq!(instance.username, "ubuntu");
    assert_eq!(instance.ssh_key_path, None);
}

#[test]
fn re_adding_replaces_and_keeps_others() {
    let mut state = State::default();
    state.add_instance("a", "i-1", "p", "r", "ubuntu", "sg-1", None, 1);
    state.add_instance("b", "i-2", "p", "r", "ubuntu", "sg-2", None, 2);
    state.add_instance("a", "i-3", "p", "r", "ubuntu", "sg-3", None, 3);
    assert_eq!(state.get_instance("a").unwrap().instance_id, "i-3");
    assert_eq!(state.get_instance("b").unwrap().instance_id, "i-2");
    assert_eq!(state.get_instance("a").unwrap().created_at, 3);
    assert!(state.remove_instance("c").is_none());
}

#[test]
fn instance_name_resolution() {
    assert_eq!(resolve_instance_name(Some("x"), Some("y".to_string())).unwrap(), "x");
    assert_eq!(resolve_instance_name(None, Some("y".to_string())).unwrap(), "y");
    assert!(matches!(resolve_instance_name(None, None), Err(Ec2CliError::InstanceNotFound(_))));
    assert_eq!(get_username_for_ami("ubuntu-22.04"), "ubuntu");
}
