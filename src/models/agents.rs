use vstd::prelude::*;
use vstd::string::StringExecFns;
use crate::lifecycle::{AgentInstance, InstanceStatus};

verus! {

#[derive(Debug, Clone)]
pub struct AgentPermissions {
    pub room_join: bool,
    pub room_create: bool,
    pub room_admin: bool,
    pub room_record: bool,
    pub ingress: bool,
    pub egress: bool,
    pub sip: bool,
}

#[derive(Debug, Clone)]
pub struct DeployAgentRequest {
    pub agent_id: Option<String>,
    pub deployment_type: String,
    pub room_name: Option<String>,
}

#[derive(Debug, Clone)]
pub struct DeployAgentResponse {
    pub instance_id: String,
    pub status: String,
    pub container_id: Option<String>,
    pub process_pid: Option<i32>,
}

#[derive(Debug, Clone)]
pub struct AgentInstanceResponse {
    pub id: String,
    pub instance_id: String,
    pub agent_id: String,
    pub status: String,
    pub container_id: Option<String>,
    pub process_pid: Option<i32>,
    pub last_heartbeat: Option<String>,
    pub exit_code: Option<i32>,
    pub crash_reason: Option<String>,
    pub started_at: Option<String>,
    pub stopped_at: Option<String>,
}

#[derive(Debug, Clone)]
pub struct AgentLogResponse {
    pub id: String,
    pub agent_id: String,
    pub instance_id: String,
    pub log_level: String,
    pub message: String,
    pub timestamp: String,
}

#[derive(Debug, Clone)]
pub struct AgentRoomAssignment {
    pub agent_id: String,
    pub room_name: String,
    pub instance_id: Option<String>,
}

#[derive(Debug, Clone)]
pub struct AgentStatusSummary {
    pub total_agents: i32,
    pub running_instances: i32,
    pub stopped_instances: i32,
    pub crashed_instances: i32,
    pub unhealthy_instances: i32,
}

#[derive(Debug, Clone)]
pub struct AgentProjectStats {
    pub active_sessions: i32,
    pub total_minutes: i32,
    pub quota_minutes: i32,
}

impl Default for AgentPermissions {
    /// Every grant allowed.
    fn default() -> (r: Self)
        ensures
            r.room_join && r.room_create && r.room_admin && r.room_record && r.ingress && r.egress && r.sip,
    {
        AgentPermissions {
            room_join: true,
            room_create: true,
            room_admin: true,
            room_record: true,
            ingress: true,
            egress: true,
            sip: true,
        }
    }
}

impl DeployAgentResponse {
    /// The answer to a deployment that created `instance`.
    pub fn from_instance(instance: &AgentInstance) -> (r: DeployAgentResponse)
        ensures
            r.instance_id == instance.instance_id,
            r.status@ == instance.status.name_spec(),
            r.container_id == instance.container_id,
            r.process_pid == instance.process_pid,
    {
        DeployAgentResponse {
            instance_id: instance.instance_id.clone(),
            status: instance.status.name(),
            container_id: instance.container_id.clone(),
            process_pid: instance.process_pid,
        }
    }
}

impl AgentStatusSummary {
    /// Counts of instances by state, over the given agents and instances.
    pub fn tally(total_agents: i32, instances: &Vec<AgentInstance>) -> (r: AgentStatusSummary)
        requires
            instances@.len() <= i32::MAX,
        ensures
            r.total_agents == total_agents,
            r.running_instances == count_status(instances@, InstanceStatus::Running),
            r.stopped_instances == count_status(instances@, InstanceStatus::Stopped),
            r.crashed_instances == count_status(instances@, InstanceStatus::Crashed),
            r.unhealthy_instances == 0,
    {
        let mut running: i32 = 0;
        let mut stopped: i32 = 0;
        let mut crashed: i32 = 0;
        let mut i: usize = 0;
        while i < instances.len()
            invariant
                i <= instances@.len(),
                instances@.len() <= i32::MAX,
                running == count_status(instances@.subrange(0, i as int), InstanceStatus::Running),
                stopped == count_status(instances@.subrange(0, i as int), InstanceStatus::Stopped),
                crashed == count_status(instances@.subrange(0, i as int), InstanceStatus::Crashed),
            decreases instances@.len() - i,
        {
            proof {
                let pre = instances@.subrange(0, i + 1);
                assert(pre.drop_last() =~= instances@.subrange(0, i as int));
                lemma_count_le(instances@.subrange(0, i as int), InstanceStatus::Running);
                lemma_count_le(instances@.subrange(0, i as int), InstanceStatus::Stopped);
                lemma_count_le(instances@.subrange(0, i as int), InstanceStatus::Crashed);
            }
            match instances[i].status {
                InstanceStatus::Running => {
                    running = running + 1;
                },
                InstanceStatus::Stopped => {
                    stopped = stopped + 1;
                },
                InstanceStatus::Crashed => {
                    crashed = crashed + 1;
                },
                InstanceStatus::Pending => {},
            }
            i = i + 1;
        }
        proof {
            assert(instances@.subrange(0, instances@.len() as int) =~= instances@);
        }
        AgentStatusSummary {
            total_agents,
            running_instances: running,
            stopped_instances: stopped,
            crashed_instances: crashed,
            unhealthy_instances: 0,
        }
    }
}

/// Whole minutes an instance ran: from its start to its stop, or none while
/// it has not stopped; rounded toward zero. Instances never started count
/// nothing.
pub open spec fn minutes_of(i: AgentInstance) -> int {
    match i.started_at {
        None => 0,
        Some(start) => {
            let d = (match i.stopped_at {
                Some(stop) => stop,
                None => start,
            }) - start;
            if d >= 0 { d / 60_000_000 } else { -((-d) / 60_000_000) }
        },
    }
}

pub open spec fn total_minutes(v: Seq<AgentInstance>) -> int
    decreases v.len(),
{
    if v.len() == 0 {
        0
    } else {
        total_minutes(v.drop_last()) + minutes_of(v.last())
    }
}

pub open spec fn clamp_i32(x: int) -> i32 {
    if x > i32::MAX {
        i32::MAX
    } else if x < i32::MIN {
        i32::MIN
    } else {
        x as i32
    }
}

proof fn lemma_minutes_bound(i: AgentInstance)
    ensures
        -0x1_0000_0000_0000 <= minutes_of(i) <= 0x1_0000_0000_0000,
{
}

proof fn lemma_total_bound(v: Seq<AgentInstance>)
    ensures
        -0x1_0000_0000_0000 * v.len() <= total_minutes(v) <= 0x1_0000_0000_0000 * v.len(),
    decreases v.len(),
{
    if v.len() > 0 {
        lemma_total_bound(v.drop_last());
        lemma_minutes_bound(v.last());
    }
}

impl AgentProjectStats {
    /// Usage of a project's agents: running instances, and minutes run in
    /// all (held to the range of `i32`). There is no quota, shown as `-1`.
    pub fn from_instances(instances: &Vec<AgentInstance>) -> (r: AgentProjectStats)
        ensures
            r.active_sessions == clamp_i32(count_status(instances@, InstanceStatus::Running) as int),
            r.total_minutes == clamp_i32(total_minutes(instances@)),
            r.quota_minutes == -1,
    {
        let mut active: u64 = 0;
        let mut minutes: i128 = 0;
        let mut i: usize = 0;
        while i < instances.len()
            invariant
                i <= instances@.len(),
                active == count_status(instances@.subrange(0, i as int), InstanceStatus::Running),
                minutes == total_minutes(instances@.subrange(0, i as int)),
            decreases instances@.len() - i,
        {
            let ghost pre = instances@.subrange(0, i + 1);
            proof {
                assert(pre.drop_last() =~= instances@.subrange(0, i as int));
                lemma_count_le(instances@.subrange(0, i as int), InstanceStatus::Running);
                lemma_total_bound(instances@.subrange(0, i as int));
                lemma_minutes_bound(instances@[i as int]);
                assert(0x1_0000_0000_0000 * i <= 0x1_0000_0000_0000 * 0x1_0000_0000_0000_0000) by (nonlinear_arith)
                    requires
                        i <= 0x1_0000_0000_0000_0000,
                ;
            }
            let inst = &instances[i];
            if inst.status == InstanceStatus::Running {
                active = active + 1;
            }
            match inst.started_at {
                Some(start) => {
                    let stop = match inst.stopped_at {
                        Some(t) => t,
                        None => start,
                    };
                    let d: i128 = stop as i128 - start as i128;
                    let m: i128 = if d >= 0 { d / 60_000_000 } else { -((-d) / 60_000_000) };
                    minutes = minutes + m;
                },
                None => {},
            }
            i = i + 1;
        }
        proof {
            assert(instances@.subrange(0, instances@.len() as int) =~= instances@);
        }
        let active_sessions: i32 = if active > i32::MAX as u64 { i32::MAX } else { active as i32 };
        let total: i32 = if minutes > i32::MAX as i128 {
            i32::MAX
        } else if minutes < i32::MIN as i128 {
            i32::MIN
        } else {
            minutes as i32
        };
        AgentProjectStats { active_sessions, total_minutes: total, quota_minutes: -1 }
    }
}

/// How many of the instances are in state `st`.
pub open spec fn count_status(v: Seq<AgentInstance>, st: InstanceStatus) -> nat
    decreases v.len(),
{
    if v.len() == 0 {
        0
    } else {
        count_status(v.drop_last(), st) + (if v.last().status == st { 1nat } else { 0nat })
    }
}

proof fn lemma_count_le(v: Seq<AgentInstance>, st: InstanceStatus)
    ensures
        count_status(v, st) <= v.len(),
    decreases v.len(),
{
    if v.len() > 0 {
        lemma_count_le(v.drop_last(), st);
    }
}

} // verus!
