use agent_supervisor::lifecycle::{
    plan_restart, plan_start, plan_stop, restart_agent, restart_step, start_agent, stop_agent, AgentInstance, Backend,
    BackendCommand, InstanceStatus, StartOutcome, SupervisorError,
};

fn container(status: InstanceStatus) -> AgentInstance {
    let mut i = AgentInstance::new_container("row-1".to_string(), "inst_a".to_string(), "agent-1".to_string(), "c0ffee".to_string(), 100);
    i.status = status;
    i
}

fn process(status: InstanceStatus) -> AgentInstance {
    let mut i = AgentInstance::new_process("row-2".to_string(), "inst_b".to_string(), "agent-1".to_string(), 4242, 100);
    i.status = status;
    i
}

fn same(a: &AgentInstance, b: &AgentInstance) -> bool {
    format!("{:?}", a) == format!("{:?}", b)
}

#[test]
fn new_records_hold_exactly_one_handle() {
    let c = container(InstanceStatus::Running);
    assert!(c.container_id.is_some() && c.process_pid.is_none());
    let p = process(InstanceStatus::Running);
    assert!(p.container_id.is_none() && p.process_pid.is_some());
    assert_eq!(c.backend(), Ok(Backend::Container("c0ffee".to_string())));
    assert_eq!(p.backend(), Ok(Backend::Process(4242)));
}

#[test]
fn record_with_both_or_no_handle_is_inconsistent() {
    let mut both = container(InstanceStatus::Stopped);
    both.process_pid = Some(7);
    assert_eq!(both.backend(), Err(SupervisorError::InternalInconsistency));
    assert_eq!(plan_start(&both), Err(SupervisorError::InternalInconsistency));
    let mut none = container(InstanceStatus::Running);
    none.container_id = None;
    assert_eq!(plan_stop(&none), Err(SupervisorError::InternalInconsistency));
    assert_eq!(plan_restart(&none), Err(SupervisorError::InternalInconsistency));
    let before = none.clone();
    assert_eq!(stop_agent(&mut none, true, 500), Err(SupervisorError::InternalInconsistency));
    assert!(same(&before, &none));
}

#[test]
fn start_on_running_is_refused_and_changes_nothing() {
    let mut i = container(InstanceStatus::Running);
    let before = i.clone();
    assert_eq!(plan_start(&i), Err(SupervisorError::InvalidTransition));
    assert_eq!(start_agent(&mut i, StartOutcome::Started, 999), Err(SupervisorError::InvalidTransition));
    assert!(same(&before, &i));
}

#[test]
fn stop_on_stopped_is_refused() {
    let mut i = process(InstanceStatus::Stopped);
    let before = i.clone();
    assert_eq!(plan_stop(&i), Err(SupervisorError::InvalidTransition));
    assert_eq!(stop_agent(&mut i, true, 999), Err(SupervisorError::InvalidTransition));
    assert!(same(&before, &i));
}

#[test]
fn failed_backend_command_leaves_record() {
    let mut i = container(InstanceStatus::Stopped);
    i.exit_code = Some(1);
    let before = i.clone();
    assert_eq!(start_agent(&mut i, StartOutcome::Failed, 999), Err(SupervisorError::OperationFailed));
    assert!(same(&before, &i));
    let mut r = container(InstanceStatus::Running);
    let before = r.clone();
    assert_eq!(stop_agent(&mut r, false, 999), Err(SupervisorError::OperationFailed));
    assert!(same(&before, &r));
}

#[test]
fn plans_name_the_backend_commands() {
    assert_eq!(plan_start(&container(InstanceStatus::Stopped)), Ok(BackendCommand::StartContainer("c0ffee".to_string())));
    assert_eq!(plan_start(&process(InstanceStatus::Stopped)), Ok(BackendCommand::RelaunchProcess));
    assert_eq!(plan_stop(&container(InstanceStatus::Running)), Ok(BackendCommand::StopContainer("c0ffee".to_string())));
    assert_eq!(plan_stop(&process(InstanceStatus::Crashed)), Ok(BackendCommand::StopProcess(4242)));
    assert_eq!(
        plan_restart(&container(InstanceStatus::Running)),
        Ok(vec![BackendCommand::StopContainer("c0ffee".to_string()), BackendCommand::StartContainer("c0ffee".to_string())])
    );
    assert_eq!(plan_restart(&process(InstanceStatus::Stopped)), Ok(vec![BackendCommand::RelaunchProcess]));
}

#[test]
fn stop_then_start_moves_start_time_forward() {
    let mut i = container(InstanceStatus::Running);
    i.started_at = Some(1_000);
    assert_eq!(stop_agent(&mut i, true, 2_000), Ok(()));
    assert_eq!(i.status, InstanceStatus::Stopped);
    assert_eq!(i.stopped_at, Some(2_000));
    assert_eq!(start_agent(&mut i, StartOutcome::Started, 3_000), Ok(()));
    assert_eq!(i.status, InstanceStatus::Running);
    assert!(i.started_at.unwrap() > 1_000);
    assert_eq!(i.stopped_at, None);
    assert_eq!(i.exit_code, None);
    assert_eq!(i.crash_reason, None);
}

#[test]
fn relaunched_process_gets_new_pid() {
    let mut i = process(InstanceStatus::Stopped);
    i.crash_reason = Some("oom".to_string());
    assert_eq!(start_agent(&mut i, StartOutcome::Relaunched(5151), 3_000), Ok(()));
    assert_eq!(i.process_pid, Some(5151));
    assert_eq!(i.container_id, None);
    assert_eq!(i.crash_reason, None);
    let mut c = container(InstanceStatus::Stopped);
    assert_eq!(start_agent(&mut c, StartOutcome::Relaunched(1), 3_000), Err(SupervisorError::InternalInconsistency));
}

#[test]
fn restart_of_running_equals_stop_then_start() {
    let mut a = container(InstanceStatus::Running);
    a.exit_code = Some(3);
    let mut b = a.clone();
    assert_eq!(restart_agent(&mut a, true, StartOutcome::Started, 5_000), Ok(()));
    assert_eq!(stop_agent(&mut b, true, 4_000), Ok(()));
    assert_eq!(start_agent(&mut b, StartOutcome::Started, 5_000), Ok(()));
    assert!(same(&a, &b));
}

#[test]
fn restart_of_stopped_equals_start() {
    let mut a = process(InstanceStatus::Stopped);
    let mut b = a.clone();
    assert_eq!(restart_agent(&mut a, false, StartOutcome::Relaunched(77), 5_000), Ok(()));
    assert_eq!(start_agent(&mut b, StartOutcome::Relaunched(77), 5_000), Ok(()));
    assert!(same(&a, &b));
}

#[test]
fn restart_with_failed_stop_aborts() {
    let mut a = container(InstanceStatus::Running);
    let before = a.clone();
    assert_eq!(restart_agent(&mut a, false, StartOutcome::Started, 5_000), Err(SupervisorError::OperationFailed));
    assert!(same(&before, &a));
}

#[test]
fn status_names_round_trip() {
    for st in [InstanceStatus::Pending, InstanceStatus::Running, InstanceStatus::Stopped, InstanceStatus::Crashed] {
        assert_eq!(InstanceStatus::from_name(&st.name()), Some(st));
    }
    assert_eq!(InstanceStatus::Running.name(), "running");
    assert_eq!(InstanceStatus::from_name("Running"), None);
}

#[test]
fn restart_with_failed_start_after_good_stop_leaves_record_stopped() {
    let mut a = container(InstanceStatus::Running);
    let mut b = a.clone();
    assert_eq!(restart_agent(&mut a, true, StartOutcome::Failed, 5_000), Err(SupervisorError::OperationFailed));
    assert_eq!(a.status, InstanceStatus::Stopped);
    assert_eq!(a.stopped_at, Some(5_000));
    assert_eq!(stop_agent(&mut b, true, 5_000), Ok(()));
    assert_eq!(start_agent(&mut b, StartOutcome::Failed, 5_000), Err(SupervisorError::OperationFailed));
    assert!(same(&a, &b));
}

#[test]
fn restart_steps_skip_start_after_failed_stop() {
    let r = container(InstanceStatus::Running);
    assert_eq!(restart_step(&r, None), Ok(Some(BackendCommand::StopContainer("c0ffee".to_string()))));
    assert_eq!(restart_step(&r, Some(true)), Ok(Some(BackendCommand::StartContainer("c0ffee".to_string()))));
    assert_eq!(restart_step(&r, Some(false)), Ok(None));
    let p = process(InstanceStatus::Stopped);
    assert_eq!(restart_step(&p, None), Ok(Some(BackendCommand::RelaunchProcess)));
    let mut bad = p.clone();
    bad.process_pid = None;
    assert_eq!(restart_step(&bad, None), Err(SupervisorError::InternalInconsistency));
}

#[test]
fn start_time_grows_even_when_clock_does_not() {
    let mut i = container(InstanceStatus::Running);
    i.started_at = Some(9_000);
    assert_eq!(stop_agent(&mut i, true, 9_000), Ok(()));
    assert_eq!(start_agent(&mut i, StartOutcome::Started, 8_000), Ok(()));
    assert_eq!(i.started_at, Some(9_001));
}
