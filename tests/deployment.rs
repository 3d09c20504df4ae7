use agent_supervisor::deploy::{
    build_agent_env, check_runtime, definition_defaults, docker_run_args, enabled_from_status, env_assignment,
    finish_container_launch, finish_process_launch, plan_deployment, resolve_deployment_type, select_backend,
    AgentDefinition, BackendKind, BaseCredentials, LaunchLimits, LaunchPlan,
};
use agent_supervisor::ids::{new_instance_id, new_record_id, uuid_hyphenated, uuid_simple};
use agent_supervisor::lifecycle::{InstanceStatus, SupervisorError};
use agent_supervisor::models::agents::{AgentPermissions, DeployAgentResponse};

fn creds() -> BaseCredentials {
    BaseCredentials {
        livekit_url: "ws://media:7880".to_string(),
        api_key: "key".to_string(),
        api_secret: "SECRET-REDACTED".to_string(),
        agent_token: "tok".to_string(),
    }
}

fn definition(image: &str, enabled: bool) -> AgentDefinition {
    AgentDefinition {
        id: "def-1".to_string(),
        agent_id: "agent_1".to_string(),
        display_name: "echo-agent".to_string(),
        image: image.to_string(),
        entrypoint: None,
        env_vars: vec![],
        limits: LaunchLimits { cpus: None, memory_mb: None },
        is_enabled: enabled,
    }
}

fn pairs(v: &[(&str, &str)]) -> Vec<(String, String)> {
    v.iter().map(|(a, b)| (a.to_string(), b.to_string())).collect()
}

#[test]
fn deployment_type_resolution() {
    assert_eq!(resolve_deployment_type("  Process ", Some("docker")), "process");
    assert_eq!(resolve_deployment_type("", Some(" PROCESS ")), "process");
    assert_eq!(resolve_deployment_type("   ", None), "docker");
    assert_eq!(resolve_deployment_type("Docker", None), "docker");
}

#[test]
fn backend_selection() {
    assert_eq!(select_backend(true, "docker"), Ok(BackendKind::Container));
    assert_eq!(select_backend(true, "container"), Ok(BackendKind::Container));
    assert_eq!(select_backend(true, "process"), Ok(BackendKind::Process));
    assert_eq!(select_backend(true, "vm"), Err(SupervisorError::UnsupportedDeploymentType));
    assert_eq!(select_backend(false, "process"), Err(SupervisorError::DefinitionDisabled));
    assert_eq!(check_runtime(BackendKind::Container, false), Err(SupervisorError::DependencyUnavailable));
    assert_eq!(check_runtime(BackendKind::Process, false), Ok(()));
}

#[test]
fn disabled_definition_is_never_launched() {
    let d = definition("demo/echo:latest", false);
    for t in ["docker", "process", "bogus"] {
        let r = plan_deployment(&d, t, true, &creds(), "inst_x", None, "net");
        assert!(matches!(r, Err(SupervisorError::DefinitionDisabled)));
    }
}

#[test]
fn unreachable_runtime_fails_fast() {
    let d = definition("demo/echo:latest", true);
    let r = plan_deployment(&d, "docker", false, &creds(), "inst_x", None, "net");
    assert!(matches!(r, Err(SupervisorError::DependencyUnavailable)));
}

#[test]
fn custom_variables_add_but_never_override() {
    let custom = pairs(&[("LIVEKIT_API_KEY", "evil"), ("MODEL", "small"), ("MODEL", "large"), ("LIVEKIT_ROOM", "other")]);
    let env = build_agent_env(&creds(), "inst_x", Some("lobby".to_string()), &custom);
    assert_eq!(
        env,
        pairs(&[
            ("LIVEKIT_URL", "ws://media:7880"),
            ("LIVEKIT_API_KEY", "key"),
            ("LIVEKIT_API_SECRET", "SECRET-REDACTED"),
            ("LIVEKIT_AGENT_TOKEN", "tok"),
            ("AGENT_INSTANCE_ID", "inst_x"),
            ("LIVEKIT_ROOM", "lobby"),
            ("MODEL", "small"),
        ])
    );
    let env = build_agent_env(&creds(), "inst_x", None, &pairs(&[("LIVEKIT_ROOM", "mine")]));
    assert_eq!(env.len(), 6);
    assert_eq!(env[5], ("LIVEKIT_ROOM".to_string(), "mine".to_string()));
}

#[test]
fn docker_run_arguments() {
    let mut d = definition("demo/echo:latest", true);
    d.entrypoint = Some("serve".to_string());
    d.limits = LaunchLimits { cpus: Some("0.5".to_string()), memory_mb: Some(512) };
    let env = pairs(&[("A", "1"), ("B", "x=y")]);
    let args = docker_run_args(&d, "inst_9", "media-net", &env);
    let expect: Vec<String> = [
        "run", "-d", "--name", "livekit-agent-inst_9", "--network", "media-net", "-e", "A=1", "-e", "B=x=y", "--cpus", "0.5", "-m",
        "512m", "demo/echo:latest", "serve",
    ]
    .iter()
    .map(|s| s.to_string())
    .collect();
    assert_eq!(args, expect);
    assert_eq!(env_assignment(&"K".to_string(), &"V".to_string()), "K=V");
}

#[test]
fn deploy_container_echo_agent() {
    let d = definition("demo/echo:latest", true);
    let t = resolve_deployment_type("container", None);
    let plan = plan_deployment(&d, &t, true, &creds(), "inst_1", None, "net").unwrap();
    match plan {
        LaunchPlan::Container { args } => {
            assert_eq!(args[0], "run");
            assert_eq!(args[args.len() - 1], "demo/echo:latest");
        }
        LaunchPlan::Process { .. } => panic!("expected a container plan"),
    }
    let inst = finish_container_launch(true, "3f2a9c\n", "row".to_string(), "inst_1".to_string(), "def-1".to_string(), 10).unwrap();
    assert_eq!(inst.status, InstanceStatus::Running);
    assert_eq!(inst.container_id.as_deref(), Some("3f2a9c"));
    assert!(!inst.container_id.as_ref().unwrap().is_empty());
    assert_eq!(inst.process_pid, None);
    let resp = DeployAgentResponse::from_instance(&inst);
    assert_eq!(resp.status, "running");
    assert_eq!(resp.container_id.as_deref(), Some("3f2a9c"));
}

#[test]
fn failed_container_launch() {
    let r = finish_container_launch(false, "abc", "row".to_string(), "i".to_string(), "d".to_string(), 10);
    assert!(matches!(r, Err(SupervisorError::LaunchFailed)));
    let r = finish_container_launch(true, "  \n", "row".to_string(), "i".to_string(), "d".to_string(), 10);
    assert!(matches!(r, Err(SupervisorError::LaunchFailed)));
}

#[test]
fn deploy_process_bin_true() {
    let d = definition("/bin/true", true);
    let plan = plan_deployment(&d, "process", false, &creds(), "inst_2", Some("room-a".to_string()), "net").unwrap();
    match plan {
        LaunchPlan::Process { program, args, env } => {
            assert_eq!(program, "/bin/true");
            assert!(args.is_empty());
            assert_eq!(env.len(), 6);
        }
        LaunchPlan::Container { .. } => panic!("expected a process plan"),
    }
    let inst = finish_process_launch(Some(31337), "row".to_string(), "inst_2".to_string(), "def-1".to_string(), 10).unwrap();
    assert_eq!(inst.status, InstanceStatus::Running);
    assert_eq!(inst.process_pid, Some(31337));
    assert_eq!(inst.container_id, None);
    assert!(matches!(
        finish_process_launch(Some(u32::MAX), "row".to_string(), "i".to_string(), "d".to_string(), 10),
        Err(SupervisorError::LaunchFailed)
    ));
    assert!(matches!(
        finish_process_launch(None, "row".to_string(), "i".to_string(), "d".to_string(), 10),
        Err(SupervisorError::LaunchFailed)
    ));
}

#[test]
fn status_words_toggle_enabled() {
    assert_eq!(enabled_from_status(" Active "), Some(true));
    assert_eq!(enabled_from_status("RUNNING"), Some(true));
    assert_eq!(enabled_from_status("paused"), Some(false));
    assert_eq!(enabled_from_status("Disabled"), Some(false));
    assert_eq!(enabled_from_status("archived"), None);
}

#[test]
fn new_definition_defaults() {
    let d = definition_defaults(None, Some("img".to_string()), None, None);
    assert_eq!(d.display_name, "New Agent");
    assert_eq!(d.image, "img");
    assert_eq!(d.default_room_behavior, "auto");
    assert_eq!(d.auto_restart_policy, "always");
    let p = AgentPermissions::default();
    assert!(p.room_join && p.room_create && p.room_admin && p.room_record && p.ingress && p.egress && p.sip);
}

#[test]
fn identifiers_have_uuid_shape() {
    assert_eq!(uuid_simple(0x0123_4567_89ab_cdef_0011_2233_4455_6677), "0123456789abcdef0011223344556677");
    assert_eq!(uuid_hyphenated(0x0123_4567_89ab_cdef_0011_2233_4455_6677), "01234567-89ab-cdef-0011-223344556677");
    let id = new_instance_id();
    assert!(id.starts_with("inst_"));
    assert_eq!(id.len(), 37);
    assert!(id[5..].chars().all(|c| c.is_ascii_hexdigit() && !c.is_ascii_uppercase()));
    let rec = new_record_id();
    assert_eq!(rec.len(), 36);
    assert_eq!(&rec[14..15], "4");
    assert_ne!(new_instance_id(), new_instance_id());
}
