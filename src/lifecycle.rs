//! Decisions of the readiness waits and of teardown, as explicit transitions.
//!
//! The caller performs each poll, sleep and delete call, hands the outcome to
//! the step functions here, and does what they return.
use vstd::prelude::*;

use crate::error::{Ec2CliError, Result};
use crate::text::{concat3, owned};

verus! {

/// The state an instance reports.
#[derive(Debug, Clone, Copy, PartialEq, Eq)]
pub enum InstanceStateName {
    Pending,
    Running,
    ShuttingDown,
    Terminated,
    Stopping,
    Stopped,
    /// A state this library does not know.
    Other,
}

/// The outcome of one instance-state lookup.
#[derive(Debug, Clone)]
pub enum Observation {
    State(InstanceStateName),
    /// The instance does not exist.
    NotFound,
    /// The lookup failed.
    Failed(Ec2CliError),
}

/// What a wait does after one observation.
#[derive(Debug, Clone)]
pub enum WaitStep {
    /// The awaited condition holds; stop polling.
    Done,
    /// Sleep this many seconds, then poll again.
    PollAgainAfter(u64),
    /// Stop with this error.
    Fail(Ec2CliError),
}

/// Seconds between polls while waiting for an instance to run or terminate.
pub const STATE_POLL_SECS: u64 = 5;

/// Seconds between polls while waiting for the session-broker agent.
pub const AGENT_POLL_SECS: u64 = 10;

/// The message of a timeout: it names the instance.
pub open spec fn timeout_message(instance_id: Seq<char>) -> Seq<char> {
    "Instance "@ + instance_id + " did not reach the awaited state before the timeout"@
}

/// Checked before each poll: a wait that has run longer than its timeout fails.
pub fn check_deadline(instance_id: &str, elapsed_secs: u64, timeout_secs: u64) -> (r: Result<()>)
    ensures
        r is Ok <==> elapsed_secs <= timeout_secs,
        r is Err ==> r->Err_0 is Timeout && r->Err_0->Timeout_0@ == timeout_message(instance_id@),
{
    if elapsed_secs > timeout_secs {
        return Err(Ec2CliError::Timeout(concat3("Instance ", instance_id,
            " did not reach the awaited state before the timeout")));
    }
    Ok(())
}

/// The transition of the wait for a running instance.
pub open spec fn running_transition(o: Observation) -> WaitStep {
    match o {
        Observation::State(InstanceStateName::Running) => WaitStep::Done,
        Observation::State(InstanceStateName::Pending) => WaitStep::PollAgainAfter(STATE_POLL_SECS),
        Observation::Failed(e) => WaitStep::Fail(e),
        Observation::NotFound => WaitStep::Fail(Ec2CliError::InstanceNotFound(arbitrary())),
        Observation::State(_) => WaitStep::Fail(Ec2CliError::InstanceState(arbitrary())),
    }
}

/// Whether two steps agree up to the messages carried by errors.
pub open spec fn same_step(a: WaitStep, b: WaitStep) -> bool {
    match (a, b) {
        (WaitStep::Done, WaitStep::Done) => true,
        (WaitStep::PollAgainAfter(x), WaitStep::PollAgainAfter(y)) => x == y,
        (WaitStep::Fail(x), WaitStep::Fail(y)) => same_error_kind(x, y),
        _ => false,
    }
}

/// Whether two errors are of the same kind.
pub open spec fn same_error_kind(a: Ec2CliError, b: Ec2CliError) -> bool {
    match (a, b) {
        (Ec2CliError::ProfileValidation(_), Ec2CliError::ProfileValidation(_)) => true,
        (Ec2CliError::ProfileInvalid(_), Ec2CliError::ProfileInvalid(_)) => true,
        (Ec2CliError::ProfileNotFound(_), Ec2CliError::ProfileNotFound(_)) => true,
        (Ec2CliError::Config(_), Ec2CliError::Config(_)) => true,
        (Ec2CliError::SshKeyInvalid(_), Ec2CliError::SshKeyInvalid(_)) => true,
        (Ec2CliError::InvalidPath(_), Ec2CliError::InvalidPath(_)) => true,
        (Ec2CliError::ResourceNotFound(_), Ec2CliError::ResourceNotFound(_)) => true,
        (Ec2CliError::SubnetMismatch(_), Ec2CliError::SubnetMismatch(_)) => true,
        (Ec2CliError::Timeout(_), Ec2CliError::Timeout(_)) => true,
        (Ec2CliError::InstanceState(_), Ec2CliError::InstanceState(_)) => true,
        (Ec2CliError::InstanceNotFound(_), Ec2CliError::InstanceNotFound(_)) => true,
        (Ec2CliError::Api(_), Ec2CliError::Api(_)) => true,
        _ => false,
    }
}

/// One step of the wait for a running instance: `Running` ends it, `Pending`
/// polls again, any other state is an unexpected-state error.
pub fn running_step(instance_id: &str, observation: Observation) -> (r: WaitStep)
    ensures
        same_step(r, running_transition(observation)),
        observation is Failed ==> r == WaitStep::Fail(observation->Failed_0),
{
    match observation {
        Observation::State(InstanceStateName::Running) => WaitStep::Done,
        Observation::State(InstanceStateName::Pending) => WaitStep::PollAgainAfter(STATE_POLL_SECS),
        Observation::Failed(e) => WaitStep::Fail(e),
        Observation::NotFound => WaitStep::Fail(Ec2CliError::InstanceNotFound(owned(instance_id))),
        Observation::State(_) => WaitStep::Fail(Ec2CliError::InstanceState(concat3("Instance ",
            instance_id, " in unexpected state"))),
    }
}

/// The transition of the wait for termination.
pub open spec fn terminated_transition(o: Observation) -> WaitStep {
    match o {
        Observation::NotFound => WaitStep::Done,
        Observation::State(InstanceStateName::Terminated) => WaitStep::Done,
        Observation::State(InstanceStateName::ShuttingDown) => WaitStep::PollAgainAfter(STATE_POLL_SECS),
        Observation::State(InstanceStateName::Stopping) => WaitStep::PollAgainAfter(STATE_POLL_SECS),
        Observation::State(InstanceStateName::Stopped) => WaitStep::PollAgainAfter(STATE_POLL_SECS),
        Observation::State(InstanceStateName::Running) => WaitStep::PollAgainAfter(STATE_POLL_SECS),
        Observation::Failed(e) => WaitStep::Fail(e),
        Observation::State(_) => WaitStep::Fail(Ec2CliError::InstanceState(arbitrary())),
    }
}

/// One step of the wait for termination: `Terminated` or a missing instance end
/// it; the transient states polls again; any other state is an error.
pub fn terminated_step(instance_id: &str, observation: Observation) -> (r: WaitStep)
    ensures
        same_step(r, terminated_transition(observation)),
        observation is Failed ==> r == WaitStep::Fail(observation->Failed_0),
{
    match observation {
        Observation::NotFound => WaitStep::Done,
        Observation::State(InstanceStateName::Terminated) => WaitStep::Done,
        Observation::State(InstanceStateName::ShuttingDown) | Observation::State(
            InstanceStateName::Stopping,
        ) | Observation::State(InstanceStateName::Stopped) | Observation::State(
            InstanceStateName::Running,
        ) => WaitStep::PollAgainAfter(STATE_POLL_SECS),
        Observation::Failed(e) => WaitStep::Fail(e),
        Observation::State(_) => WaitStep::Fail(Ec2CliError::InstanceState(concat3("Instance ",
            instance_id, " in unexpected state during termination"))),
    }
}

/// One step of the wait for the session-broker agent: online ends it, anything
/// else polls again; a failed lookup is an error.
pub fn agent_step(lookup: Result<bool>) -> (r: WaitStep)
    ensures
        lookup matches Ok(true) ==> r == WaitStep::Done,
        lookup matches Ok(false) ==> r == WaitStep::PollAgainAfter(AGENT_POLL_SECS),
        lookup is Err ==> r == WaitStep::Fail(lookup->Err_0),
{
    match lookup {
        Ok(true) => WaitStep::Done,
        Ok(false) => WaitStep::PollAgainAfter(AGENT_POLL_SECS),
        Err(e) => WaitStep::Fail(e),
    }
}

/// How many observations a wait consumes before it stops, and how it ends.
pub open spec fn run_wait(
    transition: spec_fn(Observation) -> WaitStep,
    observations: Seq<Observation>,
) -> (nat, WaitStep)
    decreases observations.len(),
{
    if observations.len() == 0 {
        (0, WaitStep::PollAgainAfter(0))
    } else {
        match transition(observations[0]) {
            WaitStep::PollAgainAfter(_) => {
                let (n, end) = run_wait(transition, observations.drop_first());
                (n + 1, end)
            },
            step => (1, step),
        }
    }
}

/// A termination wait whose first lookup finds no instance succeeds after that
/// one lookup: no further poll is made, whatever would have followed.
pub proof fn lemma_not_found_ends_termination_wait(observations: Seq<Observation>)
    requires
        observations.len() > 0,
        observations[0] is NotFound,
    ensures
        run_wait(|o: Observation| terminated_transition(o), observations) == (1nat, WaitStep::Done),
{
}

// ---------------------------------------------------------------------------
// Launch rollback
// ---------------------------------------------------------------------------

/// How far a launch got before it failed.
#[derive(Debug, Clone, Copy, PartialEq, Eq)]
pub enum LaunchPhase {
    /// Shared infrastructure and inputs; nothing of this launch exists yet.
    Preparing,
    /// The instance's security boundary exists.
    BoundaryCreated,
    /// The instance was launched; waiting for it to run and for its agent.
    InstanceLaunched,
}

/// What to undo after a failed launch: only what this launch attempt created
/// before the instance (the security boundary), best effort; shared
/// infrastructure is never rolled back.
pub fn rollback_after_failure(phase: LaunchPhase) -> (delete_boundary: bool)
    ensures
        delete_boundary <==> phase != LaunchPhase::Preparing,
{
    match phase {
        LaunchPhase::Preparing => false,
        LaunchPhase::BoundaryCreated => true,
        LaunchPhase::InstanceLaunched => true,
    }
}

// ---------------------------------------------------------------------------
// Teardown
// ---------------------------------------------------------------------------

/// Seconds to wait after termination before the first delete of the security boundary.
pub const SG_DELETE_INITIAL_WAIT_SECS: u64 = 10;

/// Delete attempts of the security boundary before giving up.
pub const SG_DELETE_MAX_ATTEMPTS: u32 = 6;

/// Seconds between delete attempts.
pub const SG_DELETE_RETRY_INTERVAL_SECS: u64 = 10;

/// What teardown does after one delete attempt of the security boundary.
#[derive(Debug, Clone, Copy, PartialEq, Eq)]
pub enum CleanupStep {
    /// The boundary is gone.
    Deleted,
    /// Wait this many seconds and try again.
    RetryAfter(u64),
    /// Attempts are exhausted; report a warning.
    GiveUp,
}

/// The transition after a delete attempt, given the failed attempts before it.
pub open spec fn cleanup_transition(failed_before: nat, succeeded: bool) -> CleanupStep {
    if succeeded {
        CleanupStep::Deleted
    } else if failed_before + 1 >= SG_DELETE_MAX_ATTEMPTS {
        CleanupStep::GiveUp
    } else {
        CleanupStep::RetryAfter(SG_DELETE_RETRY_INTERVAL_SECS)
    }
}

/// One step of the bounded retry of the security-boundary delete.
pub fn cleanup_step(failed_before: u32, succeeded: bool) -> (r: CleanupStep)
    requires
        failed_before < SG_DELETE_MAX_ATTEMPTS,
    ensures
        r == cleanup_transition(failed_before as nat, succeeded),
{
    if succeeded {
        CleanupStep::Deleted
    } else if failed_before + 1 >= SG_DELETE_MAX_ATTEMPTS {
        CleanupStep::GiveUp
    } else {
        CleanupStep::RetryAfter(SG_DELETE_RETRY_INTERVAL_SECS)
    }
}

/// The attempts made and the final step, when the delete attempts have the given outcomes.
pub open spec fn run_cleanup(results: Seq<bool>, failed_before: nat) -> (nat, CleanupStep)
    decreases results.len(),
{
    if results.len() == 0 {
        (0, CleanupStep::RetryAfter(SG_DELETE_RETRY_INTERVAL_SECS))
    } else {
        match cleanup_transition(failed_before, results[0]) {
            CleanupStep::RetryAfter(_) => {
                let (n, end) = run_cleanup(results.drop_first(), failed_before + 1);
                (n + 1, end)
            },
            step => (1, step),
        }
    }
}

/// The result of a teardown whose instance is confirmed gone.
#[derive(Debug, Clone, Copy, PartialEq, Eq)]
pub struct DestroyReport {
    /// The local instance record is to be removed.
    pub remove_record: bool,
    /// A manual cleanup note is to be shown: the security boundary could not be deleted.
    pub cleanup_warning: bool,
}

/// The report of a teardown, given how the security-boundary cleanup ended.
pub open spec fn destroy_outcome(cleanup: Option<CleanupStep>) -> DestroyReport {
    DestroyReport { remove_record: true, cleanup_warning: cleanup == Some(CleanupStep::GiveUp) }
}

/// The report of a teardown, given how the security-boundary cleanup ended (`None`
/// when the instance had no boundary). Teardown never fails once the instance is gone.
pub fn destroy_report(cleanup: Option<CleanupStep>) -> (r: DestroyReport)
    ensures
        r == destroy_outcome(cleanup),
        r.remove_record,
        r.cleanup_warning <==> cleanup == Some(CleanupStep::GiveUp),
{
    match cleanup {
        Some(CleanupStep::GiveUp) => DestroyReport { remove_record: true, cleanup_warning: true },
        _ => DestroyReport { remove_record: true, cleanup_warning: false },
    }
}

/// A teardown whose security-boundary deletes all fail gives up after exactly six
/// attempts with a warning, and still removes the instance record without error.
pub proof fn lemma_cleanup_failures_downgraded(results: Seq<bool>)
    requires
        results.len() >= 6,
        forall|i: int| 0 <= i < 6 ==> !results[i],
    ensures
        run_cleanup(results, 0) == (6nat, CleanupStep::GiveUp),
        destroy_outcome(Some(run_cleanup(results, 0).1)) == (DestroyReport {
            remove_record: true,
            cleanup_warning: true,
        }),
{
    let r1 = results.drop_first();
    let r2 = r1.drop_first();
    let r3 = r2.drop_first();
    let r4 = r3.drop_first();
    let r5 = r4.drop_first();
    assert(!r1[0] && !r2[0] && !r3[0] && !r4[0] && !r5[0]);
    assert(run_cleanup(r5, 5) == (1nat, CleanupStep::GiveUp));
    assert(run_cleanup(r4, 4) == (2nat, CleanupStep::GiveUp));
    assert(run_cleanup(r3, 3) == (3nat, CleanupStep::GiveUp));
    assert(run_cleanup(r2, 2) == (4nat, CleanupStep::GiveUp));
    assert(run_cleanup(r1, 1) == (5nat, CleanupStep::GiveUp));
}

} // verus!
