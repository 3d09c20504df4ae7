//! Tearing workloads down, and the command lines of backend operations.
use vstd::prelude::*;
use vstd::string::StringExecFns;
use crate::lifecycle::{AgentInstance, BackendCommand};
use crate::text::{i64_text, int_text, strings_of};

verus! {

/// How long a backend command may run, in seconds, before it counts as
/// failed.
pub const BACKEND_TIMEOUT_SECS: u64 = 60;

/// How many recent lines a log snapshot of a container holds.
pub const SNAPSHOT_LINES: u32 = 50;

/// One step of deleting a definition.
#[derive(Debug, Clone, PartialEq, Eq)]
pub enum TeardownStep {
    /// Remove the container, whatever state it is in.
    RemoveContainer(String),
    /// End the process: a cooperative signal, then a forceful one.
    TerminateProcess(i32),
    /// Delete the definition's record.
    DeleteDefinition,
}

/// The teardown of one record: its container, then its process, each where
/// the record has it.
pub open spec fn teardown_of(i: AgentInstance) -> Seq<TeardownStep> {
    (match i.container_id {
        Some(c) => seq![TeardownStep::RemoveContainer(c)],
        None => Seq::empty(),
    }) + (match i.process_pid {
        Some(p) => seq![TeardownStep::TerminateProcess(p)],
        None => Seq::empty(),
    })
}

pub open spec fn teardown_all(v: Seq<AgentInstance>) -> Seq<TeardownStep>
    decreases v.len(),
{
    if v.len() == 0 {
        Seq::empty()
    } else {
        teardown_all(v.drop_last()) + teardown_of(v.last())
    }
}

/// The steps of deleting a definition with the given instances: the teardown
/// of every instance, then the deletion of the definition. The plan is fixed
/// before any step runs, so no outcome of one step keeps a later one from
/// being tried.
pub fn plan_agent_deletion(instances: &Vec<AgentInstance>) -> (r: Vec<TeardownStep>)
    ensures
        r@ == teardown_all(instances@).push(TeardownStep::DeleteDefinition),
{
    let mut r: Vec<TeardownStep> = Vec::new();
    let mut i: usize = 0;
    proof {
        assert(instances@.subrange(0, 0) =~= Seq::<AgentInstance>::empty());
    }
    while i < instances.len()
        invariant
            i <= instances.len(),
            r@ == teardown_all(instances@.subrange(0, i as int)),
        decreases instances.len() - i,
    {
        let ghost pre = instances@.subrange(0, i + 1);
        let ghost before = r@;
        proof {
            assert(pre.drop_last() =~= instances@.subrange(0, i as int));
            assert(pre.last() == instances@[i as int]);
        }
        let inst = &instances[i];
        match &inst.container_id {
            Some(c) => {
                r.push(TeardownStep::RemoveContainer(c.clone()));
            },
            None => {},
        }
        match inst.process_pid {
            Some(p) => {
                r.push(TeardownStep::TerminateProcess(p));
            },
            None => {},
        }
        proof {
            assert(r@ =~= before + teardown_of(instances@[i as int]));
        }
        i = i + 1;
    }
    proof {
        assert(instances@.subrange(0, instances@.len() as int) =~= instances@);
    }
    r.push(TeardownStep::DeleteDefinition);
    r
}

/// Every handle of every instance gets its own step, and the definition is
/// deleted once, last.
pub proof fn lemma_deletion_covers(v: Seq<AgentInstance>)
    ensures
        teardown_all(v).len() == handle_count(v),
        forall|k: int| 0 <= k < teardown_all(v).len() ==> teardown_all(v)[k] != TeardownStep::DeleteDefinition,
    decreases v.len(),
{
    if v.len() > 0 {
        lemma_deletion_covers(v.drop_last());
        let a = teardown_all(v.drop_last());
        let b = teardown_of(v.last());
        assert forall|k: int| 0 <= k < teardown_all(v).len() implies teardown_all(v)[k] != TeardownStep::DeleteDefinition by {
            if k < a.len() {
                assert(teardown_all(v)[k] == a[k]);
            } else {
                assert(teardown_all(v)[k] == b[k - a.len()]);
            }
        }
    }
}

/// How many handles the instances have in all.
pub open spec fn handle_count(v: Seq<AgentInstance>) -> nat
    decreases v.len(),
{
    if v.len() == 0 {
        0
    } else {
        handle_count(v.drop_last()) + (if v.last().container_id is Some { 1nat } else { 0nat }) + (
        if v.last().process_pid is Some { 1nat } else { 0nat })
    }
}

/// A signal of process termination.
#[derive(Debug, Clone, Copy, PartialEq, Eq, Structural)]
pub enum Signal {
    /// Ask the process to end.
    Terminate,
    /// End the process unconditionally.
    Kill,
    /// End the process and its children unconditionally, where there are no
    /// Unix signals.
    TreeKill,
}

/// The first signal to send: on Unix the cooperative one.
pub fn first_signal(unix: bool) -> (r: Signal)
    ensures
        r == (if unix { Signal::Terminate } else { Signal::TreeKill }),
{
    if unix {
        Signal::Terminate
    } else {
        Signal::TreeKill
    }
}

/// How long a process has to end after the cooperative signal, in
/// milliseconds, before the unconditional one follows.
pub const GRACE_MILLIS: u64 = 2000;

/// What follows a signal.
#[derive(Debug, Clone, Copy, PartialEq, Eq, Structural)]
pub enum TerminationStep {
    /// Send this signal next.
    Send(Signal),
    /// Nothing more; whether the process was ended.
    Done(bool),
}

/// The step after a signal was sent. `delivered` says whether sending it
/// succeeded; `exited`, looked at only after a delivered cooperative signal,
/// whether the process was gone after the grace period. A cooperative signal
/// that was not delivered, or that the process outlived, is followed by the
/// unconditional one; an unconditional signal ends the termination, which
/// succeeded where it was delivered.
pub open spec fn termination_next_spec(sent: Signal, delivered: bool, exited: bool) -> TerminationStep {
    match sent {
        Signal::Terminate => if delivered && exited {
            TerminationStep::Done(true)
        } else {
            TerminationStep::Send(Signal::Kill)
        },
        _ => TerminationStep::Done(delivered),
    }
}

pub fn termination_next(sent: Signal, delivered: bool, exited: bool) -> (r: TerminationStep)
    ensures
        r == termination_next_spec(sent, delivered, exited),
{
    match sent {
        Signal::Terminate => if delivered && exited {
            TerminationStep::Done(true)
        } else {
            TerminationStep::Send(Signal::Kill)
        },
        _ => TerminationStep::Done(delivered),
    }
}

/// Escalation ends: at most two signals are sent.
pub proof fn lemma_termination_ends(first: Signal, d1: bool, e1: bool, d2: bool, e2: bool)
    ensures
        termination_next_spec(first, d1, e1) matches TerminationStep::Send(s) ==> termination_next_spec(s, d2, e2) is Done,
{
}

/// The command that asks whether a process still runs; it succeeds while the
/// process exists.
pub fn liveness_probe_command(pid: i32) -> (r: Vec<String>)
    ensures
        strings_of(r@) == seq!["kill"@, "-0"@, int_text(pid as int)],
{
    let mut r: Vec<String> = Vec::new();
    r.push(String::from_str("kill"));
    r.push(String::from_str("-0"));
    r.push(i64_text(pid as i64));
    proof {
        assert(strings_of(r@) =~= seq!["kill"@, "-0"@, int_text(pid as int)]);
    }
    r
}

pub open spec fn signal_args(s: Signal, pid: i32) -> Seq<Seq<char>> {
    match s {
        Signal::Terminate => seq!["kill"@, "-TERM"@, int_text(pid as int)],
        Signal::Kill => seq!["kill"@, "-KILL"@, int_text(pid as int)],
        Signal::TreeKill => seq!["taskkill"@, "/PID"@, int_text(pid as int), "/T"@, "/F"@],
    }
}


/// The command line that sends a signal: the program, then its arguments.
pub fn signal_command(s: Signal, pid: i32) -> (r: Vec<String>)
    ensures
        strings_of(r@) == signal_args(s, pid),
{
    let mut r: Vec<String> = Vec::new();
    match s {
        Signal::Terminate => {
            r.push(String::from_str("kill"));
            r.push(String::from_str("-TERM"));
            r.push(i64_text(pid as i64));
        },
        Signal::Kill => {
            r.push(String::from_str("kill"));
            r.push(String::from_str("-KILL"));
            r.push(i64_text(pid as i64));
        },
        Signal::TreeKill => {
            r.push(String::from_str("taskkill"));
            r.push(String::from_str("/PID"));
            r.push(i64_text(pid as i64));
            r.push(String::from_str("/T"));
            r.push(String::from_str("/F"));
        },
    }
    proof {
        assert(strings_of(r@) =~= signal_args(s, pid));
    }
    r
}

/// The arguments of the container runtime for a container command; none for
/// a process command.
pub open spec fn container_command_args(c: BackendCommand) -> Option<Seq<Seq<char>>> {
    match c {
        BackendCommand::StartContainer(id) => Some(seq!["start"@, id@]),
        BackendCommand::StopContainer(id) => Some(seq!["stop"@, id@]),
        _ => None,
    }
}

pub fn docker_command(c: &BackendCommand) -> (r: Option<Vec<String>>)
    ensures
        match r {
            Some(v) => container_command_args(*c) == Some(strings_of(v@)),
            None => container_command_args(*c) is None,
        },
{
    match c {
        BackendCommand::StartContainer(id) => {
            let mut v: Vec<String> = Vec::new();
            v.push(String::from_str("start"));
            v.push(id.clone());
            proof {
                assert(strings_of(v@) =~= seq!["start"@, id@]);
            }
            Some(v)
        },
        BackendCommand::StopContainer(id) => {
            let mut v: Vec<String> = Vec::new();
            v.push(String::from_str("stop"));
            v.push(id.clone());
            proof {
                assert(strings_of(v@) =~= seq!["stop"@, id@]);
            }
            Some(v)
        },
        _ => None,
    }
}

/// Arguments that remove a container unconditionally.
pub fn force_remove_args(container_id: &String) -> (r: Vec<String>)
    ensures
        strings_of(r@) == seq!["rm"@, "-f"@, container_id@],
{
    let mut v: Vec<String> = Vec::new();
    v.push(String::from_str("rm"));
    v.push(String::from_str("-f"));
    v.push(container_id.clone());
    proof {
        assert(strings_of(v@) =~= seq!["rm"@, "-f"@, container_id@]);
    }
    v
}

/// Arguments of a one-shot stats reading of a container, one line of
/// `cpu,memory,network,block` fields.
pub fn stats_args(container_id: &String) -> (r: Vec<String>)
    ensures
        strings_of(r@) == seq!["stats"@, "--no-stream"@, "--format"@, "{{.CPUPerc}},{{.MemUsage}},{{.NetIO}},{{.BlockIO}}"@, container_id@],
{
    let mut v: Vec<String> = Vec::new();
    v.push(String::from_str("stats"));
    v.push(String::from_str("--no-stream"));
    v.push(String::from_str("--format"));
    v.push(String::from_str("{{.CPUPerc}},{{.MemUsage}},{{.NetIO}},{{.BlockIO}}"));
    v.push(container_id.clone());
    proof {
        assert(strings_of(v@) =~= seq!["stats"@, "--no-stream"@, "--format"@, "{{.CPUPerc}},{{.MemUsage}},{{.NetIO}},{{.BlockIO}}"@, container_id@]);
    }
    v
}

/// Arguments that read a container's start time.
pub fn started_at_args(container_id: &String) -> (r: Vec<String>)
    ensures
        strings_of(r@) == seq!["inspect"@, "--format"@, "{{.State.StartedAt}}"@, container_id@],
{
    let mut v: Vec<String> = Vec::new();
    v.push(String::from_str("inspect"));
    v.push(String::from_str("--format"));
    v.push(String::from_str("{{.State.StartedAt}}"));
    v.push(container_id.clone());
    proof {
        assert(strings_of(v@) =~= seq!["inspect"@, "--format"@, "{{.State.StartedAt}}"@, container_id@]);
    }
    v
}

/// Arguments of a bounded snapshot of a container's recent output.
pub fn logs_snapshot_args(container_id: &String, tail: u32) -> (r: Vec<String>)
    ensures
        strings_of(r@) == seq!["logs"@, "--tail"@, int_text(tail as int), container_id@],
{
    let mut v: Vec<String> = Vec::new();
    v.push(String::from_str("logs"));
    v.push(String::from_str("--tail"));
    v.push(i64_text(tail as i64));
    v.push(container_id.clone());
    proof {
        assert(strings_of(v@) =~= seq!["logs"@, "--tail"@, int_text(tail as int), container_id@]);
    }
    v
}

} // verus!
