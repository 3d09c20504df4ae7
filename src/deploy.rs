//! Deployment of an agent definition: choosing the backend, building the
//! agent's environment, and the launch plan of each backend.
use vstd::prelude::*;
use vstd::string::StringExecFns;
use crate::lifecycle::{AgentInstance, SupervisorError};
use crate::text::{i64_text, int_text, lower_ascii, same_text, strings_of, to_ascii_lower, trim, trimmed};

verus! {

/// The two execution backends.
#[derive(Debug, Clone, Copy, PartialEq, Eq, Structural)]
pub enum BackendKind {
    Container,
    Process,
}

/// Optional resource ceilings of a container. `cpus` is the decimal text of a
/// CPU share, as the container runtime reads it.
#[derive(Debug, Clone)]
pub struct LaunchLimits {
    pub cpus: Option<String>,
    pub memory_mb: Option<i32>,
}

/// What a launch needs to know of an agent definition.
#[derive(Debug, Clone)]
pub struct AgentDefinition {
    pub id: String,
    pub agent_id: String,
    pub display_name: String,
    /// Container image, or the executable for the process backend.
    pub image: String,
    pub entrypoint: Option<String>,
    /// The definition's own variables, in the order they are stored.
    pub env_vars: Vec<(String, String)>,
    pub limits: LaunchLimits,
    pub is_enabled: bool,
}

/// The values every agent gets in its environment.
#[derive(Debug, Clone)]
pub struct BaseCredentials {
    pub livekit_url: String,
    pub api_key: String,
    pub api_secret: String,
    pub agent_token: String,
}

/// What to launch, for one backend.
#[derive(Debug, Clone)]
pub enum LaunchPlan {
    /// Arguments of the container runtime's command line.
    Container { args: Vec<String> },
    /// An executable, its arguments and its whole environment.
    Process { program: String, args: Vec<String>, env: Vec<(String, String)> },
}

pub type EnvView = Seq<(Seq<char>, Seq<char>)>;

pub open spec fn env_view(e: Seq<(String, String)>) -> EnvView {
    e.map_values(|p: (String, String)| (p.0@, p.1@))
}


pub open spec fn has_key(e: EnvView, k: Seq<char>) -> bool {
    exists|i: int| 0 <= i < e.len() && (#[trigger] e[i]).0 == k
}

/// `extra` added to `base` in order, each entry only where its name is not
/// there yet: nothing already present is replaced.
pub open spec fn merge_env(base: EnvView, extra: EnvView) -> EnvView
    decreases extra.len(),
{
    if extra.len() == 0 {
        base
    } else {
        let m = merge_env(base, extra.drop_last());
        if has_key(m, extra.last().0) {
            m
        } else {
            m.push(extra.last())
        }
    }
}

/// The generated part of the environment.
pub open spec fn base_env(c: BaseCredentials, instance_id: Seq<char>, room: Option<Seq<char>>) -> EnvView {
    let b = seq![
        ("LIVEKIT_URL"@, c.livekit_url@),
        ("LIVEKIT_API_KEY"@, c.api_key@),
        ("LIVEKIT_API_SECRET"@, c.api_secret@),
        ("LIVEKIT_AGENT_TOKEN"@, c.agent_token@),
        ("AGENT_INSTANCE_ID"@, instance_id),
    ];
    match room {
        Some(r) => b.push(("LIVEKIT_ROOM"@, r)),
        None => b,
    }
}

/// The deployment type: the requested one, else the configured fallback, else
/// `docker`; trimmed and in lower case.
pub open spec fn deployment_type_spec(requested: Seq<char>, fallback: Option<Seq<char>>) -> Seq<char> {
    if trimmed(requested).len() == 0 {
        match fallback {
            Some(f) => lower_ascii(trimmed(f)),
            None => "docker"@,
        }
    } else {
        lower_ascii(trimmed(requested))
    }
}

pub open spec fn backend_of_type(t: Seq<char>) -> Option<BackendKind> {
    if t == "docker"@ || t == "container"@ {
        Some(BackendKind::Container)
    } else if t == "process"@ {
        Some(BackendKind::Process)
    } else {
        None
    }
}

/// The backend a deployment goes to, or why it may not go ahead.
pub open spec fn select_backend_spec(enabled: bool, t: Seq<char>) -> Result<BackendKind, SupervisorError> {
    if !enabled {
        Err(SupervisorError::DefinitionDisabled)
    } else {
        match backend_of_type(t) {
            Some(k) => Ok(k),
            None => Err(SupervisorError::UnsupportedDeploymentType),
        }
    }
}

pub open spec fn container_name(instance_id: Seq<char>) -> Seq<char> {
    "livekit-agent-"@ + instance_id
}

pub open spec fn env_flags(e: EnvView) -> Seq<Seq<char>>
    decreases e.len(),
{
    if e.len() == 0 {
        Seq::empty()
    } else {
        env_flags(e.drop_last()) + seq!["-e"@, e.last().0 + "="@ + e.last().1]
    }
}

pub open spec fn limit_flags(cpus: Option<Seq<char>>, memory_mb: Option<i32>) -> Seq<Seq<char>> {
    (match cpus {
        Some(c) => seq!["--cpus"@, c],
        None => Seq::empty(),
    }) + (match memory_mb {
        Some(m) => seq!["-m"@, int_text(m as int) + "m"@],
        None => Seq::empty(),
    })
}

pub open spec fn opt_view(o: Option<String>) -> Option<Seq<char>> {
    match o {
        Some(s) => Some(s@),
        None => None,
    }
}

pub open spec fn opt_arg(o: Option<String>) -> Seq<Seq<char>> {
    match o {
        Some(s) => seq![s@],
        None => Seq::empty(),
    }
}

/// The container runtime's arguments: a detached run under the instance's
/// name on `network`, one `-e` per variable, the limits, the image and the
/// entrypoint.
pub open spec fn docker_run_args_spec(d: AgentDefinition, instance_id: Seq<char>, network: Seq<char>, env: EnvView) -> Seq<Seq<char>> {
    seq!["run"@, "-d"@, "--name"@, container_name(instance_id), "--network"@, network]
        + env_flags(env) + limit_flags(opt_view(d.limits.cpus), d.limits.memory_mb) + seq![d.image@]
        + opt_arg(d.entrypoint)
}

/// The deployment type of a request.
pub fn resolve_deployment_type(requested: &str, fallback: Option<&str>) -> (r: String)
    ensures
        r@ == deployment_type_spec(requested@, match fallback {
            Some(f) => Some(f@),
            None => None,
        }),
{
    let t = trim(requested);
    if t.unicode_len() == 0 {
        match fallback {
            Some(f) => {
                let ft = trim(f);
                to_ascii_lower(ft.as_str())
            },
            None => String::from_str("docker"),
        }
    } else {
        to_ascii_lower(t.as_str())
    }
}

/// The backend for a deployment type, or why the deployment may not go ahead.
pub fn select_backend(enabled: bool, deployment_type: &str) -> (r: Result<BackendKind, SupervisorError>)
    ensures
        r == select_backend_spec(enabled, deployment_type@),
{
    if !enabled {
        return Err(SupervisorError::DefinitionDisabled);
    }
    if same_text(deployment_type, "docker") || same_text(deployment_type, "container") {
        Ok(BackendKind::Container)
    } else if same_text(deployment_type, "process") {
        Ok(BackendKind::Process)
    } else {
        Err(SupervisorError::UnsupportedDeploymentType)
    }
}

/// A container deployment needs the container runtime to answer first.
pub fn check_runtime(kind: BackendKind, runtime_reachable: bool) -> (r: Result<(), SupervisorError>)
    ensures
        r == (if kind == BackendKind::Container && !runtime_reachable {
            Err(SupervisorError::DependencyUnavailable)
        } else {
            Ok(())
        }),
{
    if kind == BackendKind::Container && !runtime_reachable {
        Err(SupervisorError::DependencyUnavailable)
    } else {
        Ok(())
    }
}

fn env_has_key(e: &Vec<(String, String)>, k: &String) -> (r: bool)
    ensures
        r == has_key(env_view(e@), k@),
{
    let mut i: usize = 0;
    while i < e.len()
        invariant
            i <= e.len(),
            forall|j: int| 0 <= j < i ==> (#[trigger] e@[j]).0@ != k@,
        decreases e.len() - i,
    {
        if e[i].0 == *k {
            proof {
                assert(env_view(e@)[i as int].0 == k@);
            }
            return true;
        }
        i = i + 1;
    }
    proof {
        if has_key(env_view(e@), k@) {
            let j = choose|j: int| 0 <= j < env_view(e@).len() && (#[trigger] env_view(e@)[j]).0 == k@;
            assert(e@[j].0@ == k@);
        }
    }
    false
}

/// The whole environment of an agent: the generated variables, then the
/// definition's own, each of those only where its name is not taken yet.
pub fn build_agent_env(creds: &BaseCredentials, instance_id: &str, room: Option<String>, custom: &Vec<(String, String)>) -> (r: Vec<(String, String)>)
    ensures
        env_view(r@) == merge_env(base_env(*creds, instance_id@, opt_view(room)), env_view(custom@)),
{
    let mut r: Vec<(String, String)> = Vec::new();
    r.push((String::from_str("LIVEKIT_URL"), creds.livekit_url.clone()));
    r.push((String::from_str("LIVEKIT_API_KEY"), creds.api_key.clone()));
    r.push((String::from_str("LIVEKIT_API_SECRET"), creds.api_secret.clone()));
    r.push((String::from_str("LIVEKIT_AGENT_TOKEN"), creds.agent_token.clone()));
    r.push((String::from_str("AGENT_INSTANCE_ID"), String::from_str(instance_id)));
    match room {
        Some(room_name) => {
            r.push((String::from_str("LIVEKIT_ROOM"), room_name));
        },
        None => {},
    }
    let ghost base = env_view(r@);
    proof {
        assert(base =~= base_env(*creds, instance_id@, opt_view(room)));
        assert(env_view(custom@).subrange(0, 0) =~= Seq::<(Seq<char>, Seq<char>)>::empty());
    }
    let mut i: usize = 0;
    while i < custom.len()
        invariant
            i <= custom.len(),
            env_view(r@) == merge_env(base, env_view(custom@).subrange(0, i as int)),
        decreases custom.len() - i,
    {
        let entry = &custom[i];
        let present = env_has_key(&r, &entry.0);
        proof {
            let pre = env_view(custom@).subrange(0, i + 1);
            assert(pre.drop_last() =~= env_view(custom@).subrange(0, i as int));
            assert(pre.last() == (entry.0@, entry.1@));
        }
        if !present {
            r.push((entry.0.clone(), entry.1.clone()));
            proof {
                assert(env_view(r@) =~= merge_env(base, env_view(custom@).subrange(0, i as int)).push((entry.0@, entry.1@)));
            }
        }
        i = i + 1;
    }
    proof {
        assert(env_view(custom@).subrange(0, custom@.len() as int) =~= env_view(custom@));
    }
    r
}

/// `NAME=value`, as the container runtime takes a variable.
pub fn env_assignment(name: &String, value: &String) -> (r: String)
    ensures
        r@ == name@ + "="@ + value@,
{
    let r = name.clone().concat("=");
    r.concat(value.as_str())
}

/// The container's name for an instance.
pub fn container_name_for(instance_id: &str) -> (r: String)
    ensures
        r@ == container_name(instance_id@),
{
    String::from_str("livekit-agent-").concat(instance_id)
}

/// Arguments of the container runtime's `run` for a deployment.
pub fn docker_run_args(definition: &AgentDefinition, instance_id: &str, network: &str, env: &Vec<(String, String)>) -> (r: Vec<String>)
    ensures
        strings_of(r@) == docker_run_args_spec(*definition, instance_id@, network@, env_view(env@)),
{
    let mut r: Vec<String> = Vec::new();
    r.push(String::from_str("run"));
    r.push(String::from_str("-d"));
    r.push(String::from_str("--name"));
    r.push(container_name_for(instance_id));
    r.push(String::from_str("--network"));
    r.push(String::from_str(network));
    let ghost head = strings_of(r@);
    proof {
        assert(head =~= seq!["run"@, "-d"@, "--name"@, container_name(instance_id@), "--network"@, network@]);
        assert(env_view(env@).subrange(0, 0) =~= Seq::<(Seq<char>, Seq<char>)>::empty());
        assert(head + env_flags(Seq::empty()) =~= head);
    }
    let mut i: usize = 0;
    while i < env.len()
        invariant
            i <= env.len(),
            strings_of(r@) == head + env_flags(env_view(env@).subrange(0, i as int)),
        decreases env.len() - i,
    {
        let ghost before = r@;
        let flag = String::from_str("-e");
        let assign = env_assignment(&env[i].0, &env[i].1);
        r.push(flag);
        r.push(assign);
        proof {
            assert(r@ == before.push(flag).push(assign));
            assert(strings_of(r@) =~= strings_of(before) + seq![flag@, assign@]);
            let pre = env_view(env@).subrange(0, i + 1);
            assert(pre.drop_last() =~= env_view(env@).subrange(0, i as int));
            assert(pre.last() == (env@[i as int].0@, env@[i as int].1@));
            assert(env_flags(pre) == env_flags(pre.drop_last()) + seq!["-e"@, pre.last().0 + "="@ + pre.last().1]);
            assert(strings_of(r@) =~= head + env_flags(pre));
        }
        i = i + 1;
    }
    proof {
        assert(env_view(env@).subrange(0, env@.len() as int) =~= env_view(env@));
    }
    let ghost mid = strings_of(r@);
    match &definition.limits.cpus {
        Some(c) => {
            r.push(String::from_str("--cpus"));
            r.push(c.clone());
        },
        None => {},
    }
    match definition.limits.memory_mb {
        Some(m) => {
            r.push(String::from_str("-m"));
            r.push(i64_text(m as i64).concat("m"));
        },
        None => {},
    }
    proof {
        assert(strings_of(r@) =~= mid + limit_flags(opt_view(definition.limits.cpus), definition.limits.memory_mb));
    }
    r.push(definition.image.clone());
    match &definition.entrypoint {
        Some(e) => {
            r.push(e.clone());
        },
        None => {},
    }
    proof {
        assert(strings_of(r@) =~= docker_run_args_spec(*definition, instance_id@, network@, env_view(env@)));
    }
    r
}

/// What to launch for a deployment of `definition` to backend `kind`.
pub open spec fn launch_plan_ok(p: LaunchPlan, d: AgentDefinition, kind: BackendKind, instance_id: Seq<char>, network: Seq<char>, env: EnvView) -> bool {
    match kind {
        BackendKind::Container => p matches LaunchPlan::Container { args } && strings_of(args@)
            == docker_run_args_spec(d, instance_id, network, env),
        BackendKind::Process => p matches LaunchPlan::Process { program, args, env: penv } && program@
            == d.image@ && strings_of(args@) == opt_arg(d.entrypoint) && env_view(penv@) == env,
    }
}

/// Decides a deployment: refused where the definition is disabled, the
/// deployment type is unknown, or the container runtime did not answer;
/// otherwise the launch plan of the chosen backend, with the merged
/// environment. No launch happens before this says so.
pub fn plan_deployment(
    definition: &AgentDefinition,
    deployment_type: &str,
    runtime_reachable: bool,
    creds: &BaseCredentials,
    instance_id: &str,
    room: Option<String>,
    network: &str,
) -> (r: Result<LaunchPlan, SupervisorError>)
    ensures
        !definition.is_enabled ==> r == Err::<LaunchPlan, SupervisorError>(SupervisorError::DefinitionDisabled),
        match select_backend_spec(definition.is_enabled, deployment_type@) {
            Err(e) => r == Err::<LaunchPlan, SupervisorError>(e),
            Ok(kind) => if kind == BackendKind::Container && !runtime_reachable {
                r == Err::<LaunchPlan, SupervisorError>(SupervisorError::DependencyUnavailable)
            } else {
                r is Ok && launch_plan_ok(r->Ok_0, *definition, kind, instance_id@, network@,
                    merge_env(base_env(*creds, instance_id@, opt_view(room)), env_view(definition.env_vars@)))
            },
        },
{
    let kind = match select_backend(definition.is_enabled, deployment_type) {
        Ok(k) => k,
        Err(e) => return Err(e),
    };
    match check_runtime(kind, runtime_reachable) {
        Ok(()) => {},
        Err(e) => return Err(e),
    }
    let env = build_agent_env(creds, instance_id, room, &definition.env_vars);
    match kind {
        BackendKind::Container => Ok(LaunchPlan::Container { args: docker_run_args(definition, instance_id, network, &env) }),
        BackendKind::Process => {
            let mut args: Vec<String> = Vec::new();
            match &definition.entrypoint {
                Some(e) => {
                    args.push(e.clone());
                },
                None => {},
            }
            proof {
                assert(strings_of(args@) =~= opt_arg(definition.entrypoint));
            }
            Ok(LaunchPlan::Process { program: definition.image.clone(), args, env })
        },
    }
}

/// The record of a container launch: the runtime's trimmed output is the
/// container identifier. A failed command, or one that printed no identifier,
/// is `LaunchFailed`.
pub fn finish_container_launch(
    succeeded: bool,
    stdout: &str,
    id: String,
    instance_id: String,
    agent_id: String,
    now: i64,
) -> (r: Result<AgentInstance, SupervisorError>)
    ensures
        !succeeded || trimmed(stdout@).len() == 0 <==> r == Err::<AgentInstance, SupervisorError>(SupervisorError::LaunchFailed),
        succeeded && trimmed(stdout@).len() > 0 ==> r is Ok,
        r is Ok ==> r->Ok_0.container_id is Some && r->Ok_0.container_id->Some_0@ == trimmed(stdout@) && r->Ok_0.process_pid.is_none() && r->Ok_0.has_one_handle()
            && r->Ok_0.status == crate::lifecycle::InstanceStatus::Running && r->Ok_0.started_at == Some(now)
            && r->Ok_0.instance_id == instance_id && r->Ok_0.agent_id == agent_id && r->Ok_0.id == id,
{
    if !succeeded {
        return Err(SupervisorError::LaunchFailed);
    }
    let container_id = trim(stdout);
    if container_id.unicode_len() == 0 {
        return Err(SupervisorError::LaunchFailed);
    }
    Ok(AgentInstance::new_container(id, instance_id, agent_id, container_id, now))
}

/// The record of a process launch: the spawned process's pid. A spawn that
/// failed, or gave no pid, is `LaunchFailed`.
pub fn finish_process_launch(
    pid: Option<u32>,
    id: String,
    instance_id: String,
    agent_id: String,
    now: i64,
) -> (r: Result<AgentInstance, SupervisorError>)
    ensures
        pid is None || pid->Some_0 > i32::MAX <==> r == Err::<AgentInstance, SupervisorError>(SupervisorError::LaunchFailed),
        pid is Some && pid->Some_0 <= i32::MAX ==> r is Ok,
        r is Ok ==> r->Ok_0.process_pid == Some(pid->Some_0 as i32) && r->Ok_0.container_id.is_none() && r->Ok_0.has_one_handle()
            && r->Ok_0.status == crate::lifecycle::InstanceStatus::Running && r->Ok_0.started_at == Some(now)
            && r->Ok_0.instance_id == instance_id && r->Ok_0.agent_id == agent_id && r->Ok_0.id == id,
{
    match pid {
        Some(p) => {
            if p > i32::MAX as u32 {
                Err(SupervisorError::LaunchFailed)
            } else {
                Ok(AgentInstance::new_process(id, instance_id, agent_id, p as i32, now))
            }
        },
        None => Err(SupervisorError::LaunchFailed),
    }
}

/// What a status word sets a definition's enabled flag to: `active`,
/// `running` and `enabled` enable it, `paused`, `inactive` and `disabled`
/// disable it, after trimming and in any ASCII case; other words leave it.
pub open spec fn enabled_from_status_spec(status: Seq<char>) -> Option<bool> {
    let w = lower_ascii(trimmed(status));
    if w == "active"@ || w == "running"@ || w == "enabled"@ {
        Some(true)
    } else if w == "paused"@ || w == "inactive"@ || w == "disabled"@ {
        Some(false)
    } else {
        None
    }
}

pub fn enabled_from_status(status: &str) -> (r: Option<bool>)
    ensures
        r == enabled_from_status_spec(status@),
{
    let t = trim(status);
    let w = to_ascii_lower(t.as_str());
    let w = w.as_str();
    if same_text(w, "active") || same_text(w, "running") || same_text(w, "enabled") {
        Some(true)
    } else if same_text(w, "paused") || same_text(w, "inactive") || same_text(w, "disabled") {
        Some(false)
    } else {
        None
    }
}

/// Settings of a new definition, each from the request or its default.
#[derive(Debug, Clone)]
pub struct DefinitionDefaults {
    pub display_name: String,
    pub image: String,
    pub default_room_behavior: String,
    pub auto_restart_policy: String,
}

pub open spec fn or_default(o: Option<String>, d: Seq<char>) -> Seq<char> {
    match o {
        Some(s) => s@,
        None => d,
    }
}

/// The settings of a new definition: the requested ones, else `New Agent`,
/// `livekit/agent:latest`, `auto` and `always`.
pub fn definition_defaults(
    display_name: Option<String>,
    image: Option<String>,
    default_room_behavior: Option<String>,
    auto_restart_policy: Option<String>,
) -> (r: DefinitionDefaults)
    ensures
        r.display_name@ == or_default(display_name, "New Agent"@),
        r.image@ == or_default(image, "livekit/agent:latest"@),
        r.default_room_behavior@ == or_default(default_room_behavior, "auto"@),
        r.auto_restart_policy@ == or_default(auto_restart_policy, "always"@),
{
    DefinitionDefaults {
        display_name: match display_name {
            Some(s) => s,
            None => String::from_str("New Agent"),
        },
        image: match image {
            Some(s) => s,
            None => String::from_str("livekit/agent:latest"),
        },
        default_room_behavior: match default_room_behavior {
            Some(s) => s,
            None => String::from_str("auto"),
        },
        auto_restart_policy: match auto_restart_policy {
            Some(s) => s,
            None => String::from_str("always"),
        },
    }
}

} // verus!
