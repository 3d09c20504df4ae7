//! Instance records and their lifecycle transitions.
//!
//! A backend call sits between the check of a transition and its effect, so
//! each operation comes in two halves: `plan_*` says which backend command to
//! run (or why none may run), and the transition function takes the command's
//! outcome and updates the record.
use vstd::prelude::*;
use vstd::string::StringExecFns;
use crate::text::same_text;

verus! {

/// Error kinds of the supervisor.
#[derive(Debug, Clone, Copy, PartialEq, Eq, Structural)]
pub enum SupervisorError {
    DefinitionDisabled,
    DependencyUnavailable,
    LaunchFailed,
    InvalidTransition,
    OperationFailed,
    InternalInconsistency,
    NotFound,
    UnsupportedDeploymentType,
}

/// Lifecycle state of an instance.
#[derive(Debug, Clone, Copy, PartialEq, Eq, Structural)]
pub enum InstanceStatus {
    Pending,
    Running,
    Stopped,
    Crashed,
}

impl InstanceStatus {
    /// The status as it is stored.
    pub open spec fn name_spec(self) -> Seq<char> {
        match self {
            InstanceStatus::Pending => "pending"@,
            InstanceStatus::Running => "running"@,
            InstanceStatus::Stopped => "stopped"@,
            InstanceStatus::Crashed => "crashed"@,
        }
    }

    pub fn name(&self) -> (r: String)
        ensures
            r@ == self.name_spec(),
    {
        match self {
            InstanceStatus::Pending => String::from_str("pending"),
            InstanceStatus::Running => String::from_str("running"),
            InstanceStatus::Stopped => String::from_str("stopped"),
            InstanceStatus::Crashed => String::from_str("crashed"),
        }
    }

    /// The status a stored name stands for.
    pub fn from_name(s: &str) -> (r: Option<InstanceStatus>)
        ensures
            match r {
                Some(st) => st.name_spec() == s@,
                None => forall|st: InstanceStatus| st.name_spec() != s@,
            },
    {
        if same_text(s, "pending") {
            Some(InstanceStatus::Pending)
        } else if same_text(s, "running") {
            Some(InstanceStatus::Running)
        } else if same_text(s, "stopped") {
            Some(InstanceStatus::Stopped)
        } else if same_text(s, "crashed") {
            Some(InstanceStatus::Crashed)
        } else {
            None
        }
    }
}

/// The backend that runs an instance, with its handle.
#[derive(Debug, Clone, PartialEq, Eq)]
pub enum Backend {
    Container(String),
    Process(i32),
}

/// A command for the execution backend.
#[derive(Debug, Clone, PartialEq, Eq)]
pub enum BackendCommand {
    StartContainer(String),
    StopContainer(String),
    /// Launch the owning definition again as a process; the old pid is stale.
    RelaunchProcess,
    StopProcess(i32),
}

/// What came of a start command.
#[derive(Debug, Clone, Copy, PartialEq, Eq, Structural)]
pub enum StartOutcome {
    Failed,
    Started,
    /// The process was launched again under a new pid.
    Relaunched(i32),
}

/// One deployment of an agent definition. Timestamps are microseconds since
/// the Unix epoch.
#[derive(Debug, Clone)]
pub struct AgentInstance {
    pub id: String,
    pub instance_id: String,
    pub agent_id: String,
    pub status: InstanceStatus,
    pub container_id: Option<String>,
    pub process_pid: Option<i32>,
    pub last_heartbeat: Option<i64>,
    pub exit_code: Option<i32>,
    pub crash_reason: Option<String>,
    pub started_at: Option<i64>,
    pub stopped_at: Option<i64>,
}

impl AgentInstance {
    /// Exactly one of the two handles is set.
    pub open spec fn has_one_handle(&self) -> bool {
        self.container_id.is_some() != self.process_pid.is_some()
    }

    /// The backend of a record, if the record is consistent.
    pub open spec fn backend_spec(&self) -> Option<Backend> {
        if !self.has_one_handle() {
            None
        } else if self.container_id.is_some() {
            Some(Backend::Container(self.container_id.unwrap()))
        } else {
            Some(Backend::Process(self.process_pid.unwrap()))
        }
    }

    /// The backend of this record; `InternalInconsistency` where neither or
    /// both handles are set.
    pub fn backend(&self) -> (r: Result<Backend, SupervisorError>)
        ensures
            r == (match self.backend_spec() {
                Some(b) => Ok(b),
                None => Err(SupervisorError::InternalInconsistency),
            }),
    {
        match (&self.container_id, self.process_pid) {
            (Some(c), None) => Ok(Backend::Container(c.clone())),
            (None, Some(p)) => Ok(Backend::Process(p)),
            _ => Err(SupervisorError::InternalInconsistency),
        }
    }

    /// A running record of a container launched at `now`.
    pub fn new_container(id: String, instance_id: String, agent_id: String, container_id: String, now: i64) -> (r: AgentInstance)
        ensures
            r.status == InstanceStatus::Running,
            r.id == id,
            r.instance_id == instance_id,
            r.agent_id == agent_id,
            r.container_id == Some(container_id),
            r.process_pid.is_none(),
            r.has_one_handle(),
            r.started_at == Some(now),
            r.stopped_at.is_none(),
            r.exit_code.is_none(),
            r.crash_reason.is_none(),
            r.last_heartbeat.is_none(),
    {
        AgentInstance {
            id,
            instance_id,
            agent_id,
            status: InstanceStatus::Running,
            container_id: Some(container_id),
            process_pid: None,
            last_heartbeat: None,
            exit_code: None,
            crash_reason: None,
            started_at: Some(now),
            stopped_at: None,
        }
    }

    /// A running record of a process spawned at `now`.
    pub fn new_process(id: String, instance_id: String, agent_id: String, pid: i32, now: i64) -> (r: AgentInstance)
        ensures
            r.status == InstanceStatus::Running,
            r.id == id,
            r.instance_id == instance_id,
            r.agent_id == agent_id,
            r.container_id.is_none(),
            r.process_pid == Some(pid),
            r.has_one_handle(),
            r.started_at == Some(now),
            r.stopped_at.is_none(),
            r.exit_code.is_none(),
            r.crash_reason.is_none(),
            r.last_heartbeat.is_none(),
    {
        AgentInstance {
            id,
            instance_id,
            agent_id,
            status: InstanceStatus::Running,
            container_id: None,
            process_pid: Some(pid),
            last_heartbeat: None,
            exit_code: None,
            crash_reason: None,
            started_at: Some(now),
            stopped_at: None,
        }
    }
}

/// The command that starts a record's workload.
pub open spec fn start_command(b: Backend) -> BackendCommand {
    match b {
        Backend::Container(c) => BackendCommand::StartContainer(c),
        Backend::Process(_) => BackendCommand::RelaunchProcess,
    }
}

/// The command that stops a record's workload.
pub open spec fn stop_command(b: Backend) -> BackendCommand {
    match b {
        Backend::Container(c) => BackendCommand::StopContainer(c),
        Backend::Process(p) => BackendCommand::StopProcess(p),
    }
}

/// The start time a new start records: `now`, or just after the start time
/// it replaces where the clock has not moved past it, so that start times of
/// one record only grow.
pub open spec fn fresh_start(prev: Option<i64>, now: i64) -> i64 {
    match prev {
        Some(p) => if now <= p && p < i64::MAX {
            (p + 1) as i64
        } else {
            now
        },
        None => now,
    }
}

pub fn fresh_start_time(prev: Option<i64>, now: i64) -> (r: i64)
    ensures
        r == fresh_start(prev, now),
{
    match prev {
        Some(p) => if now <= p && p < i64::MAX {
            p + 1
        } else {
            now
        },
        None => now,
    }
}

/// The record after a start that succeeded at `now`, with a new pid when the
/// process was launched again.
pub open spec fn started(i: AgentInstance, pid: Option<i32>, now: i64) -> AgentInstance {
    AgentInstance {
        status: InstanceStatus::Running,
        started_at: Some(fresh_start(i.started_at, now)),
        stopped_at: None,
        exit_code: None,
        crash_reason: None,
        process_pid: if pid.is_some() { pid } else { i.process_pid },
        ..i
    }
}

/// The record after a stop that succeeded at `now`.
pub open spec fn stopped(i: AgentInstance, now: i64) -> AgentInstance {
    AgentInstance { status: InstanceStatus::Stopped, stopped_at: Some(now), ..i }
}

/// What the start command's outcome makes of a record whose backend is `b`,
/// once the start was allowed.
pub open spec fn apply_start(i: AgentInstance, b: Backend, o: StartOutcome, now: i64) -> Result<AgentInstance, SupervisorError> {
    match o {
        StartOutcome::Failed => Err(SupervisorError::OperationFailed),
        StartOutcome::Started => Ok(started(i, None, now)),
        StartOutcome::Relaunched(p) => match b {
            Backend::Process(_) => Ok(started(i, Some(p), now)),
            Backend::Container(_) => Err(SupervisorError::InternalInconsistency),
        },
    }
}

/// Start: refused on a running record; otherwise the outcome decides.
pub open spec fn start_spec(i: AgentInstance, o: StartOutcome, now: i64) -> Result<AgentInstance, SupervisorError> {
    if i.status == InstanceStatus::Running {
        Err(SupervisorError::InvalidTransition)
    } else {
        match i.backend_spec() {
            None => Err(SupervisorError::InternalInconsistency),
            Some(b) => apply_start(i, b, o, now),
        }
    }
}

/// Stop: refused on a stopped record; otherwise `ok` says whether the stop
/// command succeeded.
pub open spec fn stop_spec(i: AgentInstance, ok: bool, now: i64) -> Result<AgentInstance, SupervisorError> {
    if i.status == InstanceStatus::Stopped {
        Err(SupervisorError::InvalidTransition)
    } else {
        match i.backend_spec() {
            None => Err(SupervisorError::InternalInconsistency),
            Some(_) => if ok {
                Ok(stopped(i, now))
            } else {
                Err(SupervisorError::OperationFailed)
            },
        }
    }
}

/// The record and the result of a start on a record whose backend is `b`:
/// the started record, or the record unchanged with the error.
pub open spec fn start_pair(i: AgentInstance, b: Backend, o: StartOutcome, now: i64) -> (AgentInstance, Result<(), SupervisorError>) {
    match apply_start(i, b, o, now) {
        Ok(n) => (n, Ok(())),
        Err(e) => (i, Err(e)),
    }
}

/// Restart, as the record it leaves and its result: a running record is
/// stopped first (`stop_ok` is that command's outcome; it is not looked at
/// otherwise) and, where the stop failed, stays as it was; then it is
/// started. A start that fails after a stop that succeeded leaves the record
/// stopped.
pub open spec fn restart_spec(i: AgentInstance, stop_ok: bool, o: StartOutcome, now: i64) -> (AgentInstance, Result<(), SupervisorError>) {
    match i.backend_spec() {
        None => (i, Err(SupervisorError::InternalInconsistency)),
        Some(b) => if i.status == InstanceStatus::Running {
            if !stop_ok {
                (i, Err(SupervisorError::OperationFailed))
            } else {
                start_pair(stopped(i, now), b, o, now)
            }
        } else {
            start_pair(i, b, o, now)
        },
    }
}

/// The record after a transition: the new one where it succeeded, the old one
/// unchanged where it failed.
pub open spec fn transition_holds(before: AgentInstance, after: AgentInstance, r: Result<(), SupervisorError>, s: Result<AgentInstance, SupervisorError>) -> bool {
    match s {
        Ok(n) => r == Ok::<(), SupervisorError>(()) && after == n,
        Err(e) => r == Err::<(), SupervisorError>(e) && after == before,
    }
}

/// The command to run for a start, or why none may run.
pub fn plan_start(instance: &AgentInstance) -> (r: Result<BackendCommand, SupervisorError>)
    ensures
        instance.status == InstanceStatus::Running ==> r == Err::<BackendCommand, SupervisorError>(SupervisorError::InvalidTransition),
        instance.status != InstanceStatus::Running ==> r == (match instance.backend_spec() {
            Some(b) => Ok(start_command(b)),
            None => Err(SupervisorError::InternalInconsistency),
        }),
{
    if instance.status == InstanceStatus::Running {
        return Err(SupervisorError::InvalidTransition);
    }
    match instance.backend() {
        Ok(Backend::Container(c)) => Ok(BackendCommand::StartContainer(c)),
        Ok(Backend::Process(_)) => Ok(BackendCommand::RelaunchProcess),
        Err(e) => Err(e),
    }
}

/// The command to run for a stop, or why none may run.
pub fn plan_stop(instance: &AgentInstance) -> (r: Result<BackendCommand, SupervisorError>)
    ensures
        instance.status == InstanceStatus::Stopped ==> r == Err::<BackendCommand, SupervisorError>(SupervisorError::InvalidTransition),
        instance.status != InstanceStatus::Stopped ==> r == (match instance.backend_spec() {
            Some(b) => Ok(stop_command(b)),
            None => Err(SupervisorError::InternalInconsistency),
        }),
{
    if instance.status == InstanceStatus::Stopped {
        return Err(SupervisorError::InvalidTransition);
    }
    match instance.backend() {
        Ok(b) => Ok(match b {
            Backend::Container(c) => BackendCommand::StopContainer(c),
            Backend::Process(p) => BackendCommand::StopProcess(p),
        }),
        Err(e) => Err(e),
    }
}

/// The commands of a restart where each succeeds, in order: a stop where the
/// record is running, then a start. [`restart_step`] says what follows a stop
/// that failed.
pub fn plan_restart(instance: &AgentInstance) -> (r: Result<Vec<BackendCommand>, SupervisorError>)
    ensures
        match instance.backend_spec() {
            None => r == Err::<Vec<BackendCommand>, SupervisorError>(SupervisorError::InternalInconsistency),
            Some(b) => r is Ok && r->Ok_0@ == (if instance.status == InstanceStatus::Running {
                seq![stop_command(b), start_command(b)]
            } else {
                seq![start_command(b)]
            }),
        },
{
    match instance.backend() {
        Err(e) => Err(e),
        Ok(b) => {
            let mut v: Vec<BackendCommand> = Vec::new();
            if instance.status == InstanceStatus::Running {
                v.push(match &b {
                    Backend::Container(c) => BackendCommand::StopContainer(c.clone()),
                    Backend::Process(p) => BackendCommand::StopProcess(*p),
                });
            }
            v.push(match b {
                Backend::Container(c) => BackendCommand::StartContainer(c),
                Backend::Process(_) => BackendCommand::RelaunchProcess,
            });
            Ok(v)
        },
    }
}

fn apply_start_exec(instance: &mut AgentInstance, b: &Backend, outcome: StartOutcome, now: i64) -> (r: Result<(), SupervisorError>)
    ensures
        transition_holds(*old(instance), *final(instance), r, apply_start(*old(instance), *b, outcome, now)),
{
    match outcome {
        StartOutcome::Failed => Err(SupervisorError::OperationFailed),
        StartOutcome::Started => {
            instance.status = InstanceStatus::Running;
            instance.started_at = Some(fresh_start_time(instance.started_at, now));
            instance.stopped_at = None;
            instance.exit_code = None;
            instance.crash_reason = None;
            Ok(())
        },
        StartOutcome::Relaunched(p) => match b {
            Backend::Process(_) => {
                instance.status = InstanceStatus::Running;
                instance.started_at = Some(fresh_start_time(instance.started_at, now));
                instance.stopped_at = None;
                instance.exit_code = None;
                instance.crash_reason = None;
                instance.process_pid = Some(p);
                Ok(())
            },
            Backend::Container(_) => Err(SupervisorError::InternalInconsistency),
        },
    }
}

/// Start transition: applies the outcome of the start command at time `now`.
/// Refused on a running record; a failed command leaves the record as it was.
pub fn start_agent(instance: &mut AgentInstance, outcome: StartOutcome, now: i64) -> (r: Result<(), SupervisorError>)
    ensures
        transition_holds(*old(instance), *final(instance), r, start_spec(*old(instance), outcome, now)),
{
    if instance.status == InstanceStatus::Running {
        return Err(SupervisorError::InvalidTransition);
    }
    match instance.backend() {
        Err(e) => Err(e),
        Ok(b) => apply_start_exec(instance, &b, outcome, now),
    }
}

/// Stop transition: applies the outcome of the stop command at time `now`.
/// Refused on a stopped record; a failed command leaves the record as it was.
pub fn stop_agent(instance: &mut AgentInstance, ok: bool, now: i64) -> (r: Result<(), SupervisorError>)
    ensures
        transition_holds(*old(instance), *final(instance), r, stop_spec(*old(instance), ok, now)),
{
    if instance.status == InstanceStatus::Stopped {
        return Err(SupervisorError::InvalidTransition);
    }
    match instance.backend() {
        Err(e) => Err(e),
        Ok(_) => {
            if ok {
                instance.status = InstanceStatus::Stopped;
                instance.stopped_at = Some(now);
                Ok(())
            } else {
                Err(SupervisorError::OperationFailed)
            }
        },
    }
}

/// The next command of a restart. With `stop_outcome` none, nothing has run
/// yet: a running record is stopped first, another one started. After the
/// stop, the start follows only where the stop succeeded; after a failed stop
/// nothing more runs.
pub fn restart_step(instance: &AgentInstance, stop_outcome: Option<bool>) -> (r: Result<Option<BackendCommand>, SupervisorError>)
    ensures
        match instance.backend_spec() {
            None => r == Err::<Option<BackendCommand>, SupervisorError>(SupervisorError::InternalInconsistency),
            Some(b) => r == Ok::<Option<BackendCommand>, SupervisorError>(match stop_outcome {
                None => if instance.status == InstanceStatus::Running {
                    Some(stop_command(b))
                } else {
                    Some(start_command(b))
                },
                Some(ok) => if ok {
                    Some(start_command(b))
                } else {
                    None
                },
            }),
        },
{
    let b = match instance.backend() {
        Ok(b) => b,
        Err(e) => return Err(e),
    };
    let start = match &b {
        Backend::Container(c) => BackendCommand::StartContainer(c.clone()),
        Backend::Process(_) => BackendCommand::RelaunchProcess,
    };
    match stop_outcome {
        None => if instance.status == InstanceStatus::Running {
            Ok(Some(match b {
                Backend::Container(c) => BackendCommand::StopContainer(c),
                Backend::Process(p) => BackendCommand::StopProcess(p),
            }))
        } else {
            Ok(Some(start))
        },
        Some(ok) => if ok {
            Ok(Some(start))
        } else {
            Ok(None)
        },
    }
}

/// Restart transition: `stop_ok` is the outcome of the stop command (run only
/// on a running record), `outcome` that of the start command (run only where
/// no stop failed).
pub fn restart_agent(instance: &mut AgentInstance, stop_ok: bool, outcome: StartOutcome, now: i64) -> (r: Result<(), SupervisorError>)
    ensures
        (*final(instance), r) == restart_spec(*old(instance), stop_ok, outcome, now),
{
    match instance.backend() {
        Err(e) => Err(e),
        Ok(b) => {
            if instance.status == InstanceStatus::Running {
                if !stop_ok {
                    return Err(SupervisorError::OperationFailed);
                }
                instance.status = InstanceStatus::Stopped;
                instance.stopped_at = Some(now);
                proof {
                    assert(*instance == stopped(*old(instance), now));
                }
            }
            let ghost mid = *instance;
            let r = apply_start_exec(instance, &b, outcome, now);
            proof {
                match apply_start(mid, b, outcome, now) {
                    Ok(n) => {
                        assert(r == Ok::<(), SupervisorError>(()));
                        assert(*instance == n);
                    },
                    Err(e) => {
                        assert(r == Err::<(), SupervisorError>(e));
                        assert(*instance == mid);
                    },
                }
            }
            r
        },
    }
}

/// A transition's outcome as the record it leaves and its result: the new
/// record where it succeeded, the old one with the error where it failed.
pub open spec fn as_pair(before: AgentInstance, s: Result<AgentInstance, SupervisorError>) -> (AgentInstance, Result<(), SupervisorError>) {
    match s {
        Ok(n) => (n, Ok(())),
        Err(e) => (before, Err(e)),
    }
}

/// Every transition keeps a consistent record consistent: exactly one of the
/// container handle and the process handle stays set, and the container
/// handle does not change.
pub proof fn lemma_transitions_keep_one_handle(i: AgentInstance, stop_ok: bool, o: StartOutcome, now: i64)
    requires
        i.has_one_handle(),
    ensures
        start_spec(i, o, now) is Ok ==> start_spec(i, o, now)->Ok_0.has_one_handle(),
        stop_spec(i, stop_ok, now) is Ok ==> stop_spec(i, stop_ok, now)->Ok_0.has_one_handle(),
        restart_spec(i, stop_ok, o, now).0.has_one_handle(),
        start_spec(i, o, now) is Ok ==> start_spec(i, o, now)->Ok_0.container_id == i.container_id,
        restart_spec(i, stop_ok, o, now).0.container_id == i.container_id,
        stop_spec(i, stop_ok, now) is Ok ==> stop_spec(i, stop_ok, now)->Ok_0.container_id == i.container_id
            && stop_spec(i, stop_ok, now)->Ok_0.process_pid == i.process_pid,
{
}

/// A lifecycle operation with the outcome of its backend commands and its
/// time.
pub enum Transition {
    Start(StartOutcome, i64),
    Stop(bool, i64),
    Restart(bool, StartOutcome, i64),
}

/// The record after one operation.
pub open spec fn apply_transition(i: AgentInstance, t: Transition) -> AgentInstance {
    match t {
        Transition::Start(o, now) => as_pair(i, start_spec(i, o, now)).0,
        Transition::Stop(ok, now) => as_pair(i, stop_spec(i, ok, now)).0,
        Transition::Restart(s, o, now) => restart_spec(i, s, o, now).0,
    }
}

pub open spec fn apply_all(i: AgentInstance, ts: Seq<Transition>) -> AgentInstance
    decreases ts.len(),
{
    if ts.len() == 0 {
        i
    } else {
        apply_transition(apply_all(i, ts.drop_last()), ts.last())
    }
}

/// Whatever operations follow one another on a consistent record, and
/// whatever their outcomes, the record keeps exactly one handle, and its
/// container handle never changes.
pub proof fn lemma_one_handle_always(i: AgentInstance, ts: Seq<Transition>)
    requires
        i.has_one_handle(),
    ensures
        apply_all(i, ts).has_one_handle(),
        apply_all(i, ts).container_id == i.container_id,
    decreases ts.len(),
{
    if ts.len() > 0 {
        lemma_one_handle_always(i, ts.drop_last());
        let p = apply_all(i, ts.drop_last());
        match ts.last() {
            Transition::Start(o, now) => lemma_transitions_keep_one_handle(p, true, o, now),
            Transition::Stop(ok, now) => lemma_transitions_keep_one_handle(p, ok, StartOutcome::Failed, now),
            Transition::Restart(s, o, now) => lemma_transitions_keep_one_handle(p, s, o, now),
        }
    }
}

/// Starting a running record is refused with `InvalidTransition`, whatever the
/// backend would have said, and the record stays as it was.
pub proof fn lemma_start_running_refused(i: AgentInstance, after: AgentInstance, r: Result<(), SupervisorError>, o: StartOutcome, now: i64)
    requires
        i.status == InstanceStatus::Running,
        transition_holds(i, after, r, start_spec(i, o, now)),
    ensures
        r == Err::<(), SupervisorError>(SupervisorError::InvalidTransition),
        after == i,
{
}

/// A stop followed by a start brings a running record back to running, with a
/// start time later than the one it had, at whatever times the two happen.
pub proof fn lemma_stop_then_start(i: AgentInstance, t_stop: i64, t_start: i64, o: StartOutcome)
    requires
        i.has_one_handle(),
        i.status == InstanceStatus::Running,
        i.started_at is Some,
        i.started_at->Some_0 < i64::MAX,
        o == StartOutcome::Started || (o is Relaunched && i.process_pid is Some),
    ensures
        stop_spec(i, true, t_stop) is Ok,
        start_spec(stop_spec(i, true, t_stop)->Ok_0, o, t_start) is Ok,
        start_spec(stop_spec(i, true, t_stop)->Ok_0, o, t_start)->Ok_0.status == InstanceStatus::Running,
        start_spec(stop_spec(i, true, t_stop)->Ok_0, o, t_start)->Ok_0.started_at->Some_0 > i.started_at->Some_0,
{
}

/// A stop, then a start of the stopped record where the stop succeeded; as
/// the record left and the result.
pub open spec fn stop_then_start(i: AgentInstance, stop_ok: bool, o: StartOutcome, now: i64) -> (AgentInstance, Result<(), SupervisorError>) {
    match stop_spec(i, stop_ok, now) {
        Ok(n) => as_pair(n, start_spec(n, o, now)),
        Err(e) => (i, Err(e)),
    }
}

/// On a running record a restart is a stop followed by a start, in the record
/// it leaves and in its result, a failed start after a good stop included; on
/// a stopped record it is a start alone.
pub proof fn lemma_restart_composes(i: AgentInstance, stop_ok: bool, o: StartOutcome, now: i64)
    ensures
        i.status == InstanceStatus::Running ==> restart_spec(i, stop_ok, o, now) == stop_then_start(i, stop_ok, o, now),
        i.status == InstanceStatus::Stopped ==> restart_spec(i, stop_ok, o, now) == as_pair(i, start_spec(i, o, now)),
{
    if i.status == InstanceStatus::Running && stop_ok && i.backend_spec() is Some {
        let n = stopped(i, now);
        assert(n.backend_spec() == i.backend_spec());
    }
}

} // verus!
