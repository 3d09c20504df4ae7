use agent_supervisor::lifecycle::{AgentInstance, BackendCommand, InstanceStatus};
use agent_supervisor::log_capture::{
    capture_all, format_log_record, join_lines, level_for, level_name, snapshot_line, CaptureState, LogLevel,
    Snapshot, StreamEvent, StreamKind,
};
use agent_supervisor::teardown::{
    docker_command, first_signal, force_remove_args, liveness_probe_command, logs_snapshot_args, plan_agent_deletion,
    signal_command, started_at_args, stats_args, termination_next, Signal, TeardownStep, TerminationStep,
};

fn line(k: StreamKind, t: &str) -> StreamEvent {
    StreamEvent::Line(k, t.to_string())
}

#[test]
fn capture_counts_lines_per_stream() {
    let events = vec![
        line(StreamKind::Stdout, "a"),
        line(StreamKind::Stderr, "oops"),
        line(StreamKind::Stdout, "b"),
        line(StreamKind::Stdout, "c"),
        StreamEvent::Closed(StreamKind::Stdout),
        line(StreamKind::Stderr, "bad"),
        StreamEvent::Closed(StreamKind::Stderr),
    ];
    let (state, out) = capture_all(events);
    assert!(state.is_finished());
    assert_eq!(out.iter().filter(|l| l.level == LogLevel::Info).count(), 3);
    assert_eq!(out.iter().filter(|l| l.level == LogLevel::Error).count(), 2);
    let msgs: Vec<&str> = out.iter().map(|l| l.message.as_str()).collect();
    assert_eq!(msgs, vec!["a", "oops", "b", "c", "bad"]);
}

#[test]
fn capture_keeps_running_until_both_streams_end() {
    let mut s = CaptureState::new();
    assert!(s.step(StreamEvent::Closed(StreamKind::Stderr)).is_none());
    assert!(!s.is_finished());
    let rec = s.step(line(StreamKind::Stdout, "still here")).unwrap();
    assert_eq!(rec.level, LogLevel::Info);
    assert!(s.step(StreamEvent::Closed(StreamKind::Stdout)).is_none());
    assert!(s.is_finished());
}

#[test]
fn capture_of_silent_process_ends_with_no_records() {
    let (state, out) = capture_all(vec![StreamEvent::Closed(StreamKind::Stdout), StreamEvent::Closed(StreamKind::Stderr)]);
    assert!(state.is_finished());
    assert!(out.is_empty());
}

#[test]
fn levels_and_text_forms() {
    assert_eq!(level_for(StreamKind::Stdout), LogLevel::Info);
    assert_eq!(level_for(StreamKind::Stderr), LogLevel::Error);
    assert_eq!(level_name(LogLevel::Info), "INFO");
    assert_eq!(level_name(LogLevel::Error), "ERROR");
    assert_eq!(snapshot_line(StreamKind::Stderr, "x"), "[STDERR] x");
    assert_eq!(snapshot_line(StreamKind::Stdout, "y"), "[STDOUT] y");
    assert_eq!(format_log_record("2024-01-01 00:00:00", "INFO", "hi"), "[2024-01-01 00:00:00] [INFO] hi");
    assert_eq!(join_lines(&vec!["a".to_string(), "b".to_string(), "c".to_string()]), "a\nb\nc");
    assert_eq!(join_lines(&vec![]), "");
}

fn stopped(container: Option<&str>, pid: Option<i32>) -> AgentInstance {
    let mut i = AgentInstance::new_process("r".to_string(), "i".to_string(), "d".to_string(), 1, 0);
    i.status = InstanceStatus::Stopped;
    i.container_id = container.map(|c| c.to_string());
    i.process_pid = pid;
    i
}

#[test]
fn delete_tears_down_every_instance_then_the_definition() {
    let plan = plan_agent_deletion(&vec![stopped(Some("dead-container"), None), stopped(None, Some(999))]);
    assert_eq!(
        plan,
        vec![
            TeardownStep::RemoveContainer("dead-container".to_string()),
            TeardownStep::TerminateProcess(999),
            TeardownStep::DeleteDefinition,
        ]
    );
    // The plan is fixed up front: a failing first step does not drop the rest.
    let mut attempted = Vec::new();
    for (n, step) in plan.iter().enumerate() {
        attempted.push(step.clone());
        let _failed = n == 0;
    }
    assert_eq!(attempted.len(), 3);
    assert_eq!(plan_agent_deletion(&vec![]), vec![TeardownStep::DeleteDefinition]);
}

#[test]
fn termination_escalates_only_after_failure() {
    assert_eq!(first_signal(true), Signal::Terminate);
    assert_eq!(first_signal(false), Signal::TreeKill);
    // Delivered and gone after the grace period: done.
    assert_eq!(termination_next(Signal::Terminate, true, true), TerminationStep::Done(true));
    // Delivered but still running after the grace period: escalate.
    assert_eq!(termination_next(Signal::Terminate, true, false), TerminationStep::Send(Signal::Kill));
    // Not delivered: escalate.
    assert_eq!(termination_next(Signal::Terminate, false, false), TerminationStep::Send(Signal::Kill));
    assert_eq!(termination_next(Signal::Kill, true, false), TerminationStep::Done(true));
    assert_eq!(termination_next(Signal::Kill, false, false), TerminationStep::Done(false));
    assert_eq!(termination_next(Signal::TreeKill, true, false), TerminationStep::Done(true));
    assert_eq!(liveness_probe_command(42), vec!["kill", "-0", "42"]);
    assert_eq!(signal_command(Signal::Terminate, 42), vec!["kill", "-TERM", "42"]);
    assert_eq!(signal_command(Signal::Kill, -7), vec!["kill", "-KILL", "-7"]);
    assert_eq!(signal_command(Signal::TreeKill, 42), vec!["taskkill", "/PID", "42", "/T", "/F"]);
}

#[test]
fn container_command_lines() {
    assert_eq!(docker_command(&BackendCommand::StartContainer("c1".to_string())), Some(vec!["start".to_string(), "c1".to_string()]));
    assert_eq!(docker_command(&BackendCommand::StopContainer("c1".to_string())), Some(vec!["stop".to_string(), "c1".to_string()]));
    assert_eq!(docker_command(&BackendCommand::StopProcess(3)), None);
    assert_eq!(force_remove_args(&"c1".to_string()), vec!["rm", "-f", "c1"]);
    assert_eq!(stats_args(&"c1".to_string())[3], "{{.CPUPerc}},{{.MemUsage}},{{.NetIO}},{{.BlockIO}}");
    assert_eq!(started_at_args(&"c1".to_string()), vec!["inspect", "--format", "{{.State.StartedAt}}", "c1"]);
    assert_eq!(logs_snapshot_args(&"c1".to_string(), 50), vec!["logs", "--tail", "50", "c1"]);
}

#[test]
fn snapshot_stops_at_its_limit() {
    let mut snap = Snapshot::new(2);
    snap.take(line(StreamKind::Stdout, "one"));
    assert!(!snap.is_done());
    snap.take(line(StreamKind::Stderr, "two"));
    assert!(snap.is_done());
    snap.take(line(StreamKind::Stdout, "three"));
    assert_eq!(snap.lines, vec!["[STDOUT] one", "[STDERR] two"]);
    assert_eq!(join_lines(&snap.lines), "[STDOUT] one\n[STDERR] two");
}

#[test]
fn snapshot_ends_when_both_streams_end() {
    let mut snap = Snapshot::new(50);
    snap.take(line(StreamKind::Stderr, "only"));
    snap.take(StreamEvent::Closed(StreamKind::Stdout));
    assert!(!snap.is_done());
    snap.take(StreamEvent::Closed(StreamKind::Stderr));
    assert!(snap.is_done());
    assert_eq!(snap.lines, vec!["[STDERR] only"]);
}
