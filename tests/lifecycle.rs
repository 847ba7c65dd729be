use ec2_cli::error::Ec2CliError;
use ec2_cli::lifecycle::{
    agent_step, check_deadline, cleanup_step, destroy_report, running_step, terminated_step,
    rollback_after_failure, CleanupStep, InstanceStateName, LaunchPhase, Observation, WaitStep,
    SG_DELETE_MAX_ATTEMPTS,
};

#[test]
fn termination_wait_succeeds_on_not_found() {
    assert!(matches!(terminated_step("i-1", Observation::NotFound), WaitStep::Done));
    assert!(matches!(
        terminated_step("i-1", Observation::State(InstanceStateName::Terminated)),
        WaitStep::Done
    ));
    for s in [
        InstanceStateName::ShuttingDown,
        InstanceStateName::Stopping,
        InstanceStateName::Stopped,
        InstanceStateName::Running,
    ] {
        assert!(matches!(terminated_step("i-1", Observation::State(s)), WaitStep::PollAgainAfter(5)));
    }
    assert!(matches!(
        terminated_step("i-1", Observation::State(InstanceStateName::Pending)),
        WaitStep::Fail(Ec2CliError::InstanceState(_))
    ));
    assert!(matches!(
        terminated_step("i-1", Observation::Failed(Ec2CliError::Api("x".to_string()))),
        WaitStep::Fail(Ec2CliError::Api(_))
    ));
}

#[test]
fn running_wait_transitions() {
    assert!(matches!(running_step("i-1", Observation::State(InstanceStateName::Running)), WaitStep::Done));
    assert!(matches!(
        running_step("i-1", Observation::State(InstanceStateName::Pending)),
        WaitStep::PollAgainAfter(5)
    ));
    assert!(matches!(
        running_step("i-1", Observation::State(InstanceStateName::Stopped)),
        WaitStep::Fail(Ec2CliError::InstanceState(_))
    ));
    assert!(matches!(
        running_step("i-1", Observation::NotFound),
        WaitStep::Fail(Ec2CliError::InstanceNotFound(_))
    ));
}

#[test]
fn agent_wait_transitions() {
    assert!(matches!(agent_step(Ok(true)), WaitStep::Done));
    assert!(matches!(agent_step(Ok(false)), WaitStep::PollAgainAfter(10)));
    assert!(matches!(
        agent_step(Err(Ec2CliError::Api("throttled".to_string()))),
        WaitStep::Fail(Ec2CliError::Api(_))
    ));
}

#[test]
fn deadline_is_inclusive() {
    assert!(check_deadline("i-1", 300, 300).is_ok());
    match check_deadline("i-1", 301, 300) {
        Err(Ec2CliError::Timeout(m)) => assert!(m.contains("i-1")),
        other => panic!("unexpected {:?}", other),
    }
}

#[test]
fn six_failed_deletes_downgrade_to_warning() {
    let mut failed: u32 = 0;
    let mut last = None;
    while failed < SG_DELETE_MAX_ATTEMPTS {
        let step = cleanup_step(failed, false);
        last = Some(step);
        match step {
            CleanupStep::RetryAfter(secs) => {
                assert_eq!(secs, 10);
                failed += 1;
            }
            _ => break,
        }
    }
    assert_eq!(failed, 5);
    assert_eq!(last, Some(CleanupStep::GiveUp));
    let report = destroy_report(last);
    assert!(report.remove_record);
    assert!(report.cleanup_warning);
}

#[test]
fn cleanup_success_and_absent_boundary() {
    assert_eq!(cleanup_step(3, true), CleanupStep::Deleted);
    let report = destroy_report(Some(CleanupStep::Deleted));
    assert!(report.remove_record && !report.cleanup_warning);
    let report = destroy_report(None);
    assert!(report.remove_record && !report.cleanup_warning);
}

#[test]
fn failed_launch_rolls_back_the_boundary_only_once_created() {
    assert!(!rollback_after_failure(LaunchPhase::Preparing));
    assert!(rollback_after_failure(LaunchPhase::BoundaryCreated));
    assert!(rollback_after_failure(LaunchPhase::InstanceLaunched));
}
