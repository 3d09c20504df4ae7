use agent_supervisor::accounts::{keep_dial_chars, validate_email, validate_name, validate_phone};
use agent_supervisor::lifecycle::{AgentInstance, InstanceStatus};
use agent_supervisor::models::agents::{AgentProjectStats, AgentStatusSummary};
use agent_supervisor::status_codes::{
    is_idempotent_migration_error, map_livekit_error, map_sip_error_status, media_error_status,
};

#[test]
fn email_rules() {
    assert_eq!(validate_email(""), Err("Email is required".to_string()));
    assert_eq!(validate_email(&format!("{}@example.com", "a".repeat(250))), Err("Email is too long".to_string()));
    assert_eq!(validate_email("not an email"), Err("Invalid email format".to_string()));
    assert_eq!(validate_email("ops@media.example.com"), Ok(()));
}

#[test]
fn name_rules() {
    assert_eq!(validate_name(""), Err("Name is required".to_string()));
    assert_eq!(validate_name("A"), Err("Name must be at least 2 characters long".to_string()));
    assert_eq!(validate_name(&"a".repeat(101)), Err("Name is too long".to_string()));
    assert_eq!(validate_name("R2-D2"), Err("Name contains invalid characters".to_string()));
    assert_eq!(validate_name("Zoë O'Neil-Smith"), Ok(()));
}

#[test]
fn phone_rules() {
    assert_eq!(validate_phone(""), Ok(()));
    assert_eq!(validate_phone("+1 (415) 555-0100"), Ok(()));
    assert_eq!(
        validate_phone("12345"),
        Err("Invalid phone number format. Use E.164 format (+1234567890)".to_string())
    );
    assert_eq!(keep_dial_chars("+1 (415) 555-0100"), "+14155550100");
}

#[test]
fn telephony_errors_map_to_statuses() {
    assert_eq!(map_sip_error_status("twirp error: Already Exists"), 409);
    assert_eq!(map_sip_error_status("INVALID_ARGUMENT: bad number"), 400);
    assert_eq!(map_sip_error_status("not_found"), 404);
    assert_eq!(map_sip_error_status("permission_denied"), 403);
    assert_eq!(map_sip_error_status("Unauthenticated"), 403);
    assert_eq!(map_sip_error_status("boom"), 500);
}

#[test]
fn media_errors_map_to_statuses() {
    assert_eq!(map_livekit_error("Unauthorized: Invalid API key"), 401);
    assert_eq!(map_livekit_error("room does not exist"), 404);
    assert_eq!(map_livekit_error("Connection refused"), 503);
    assert_eq!(map_livekit_error("Invalid room name"), 400);
    assert_eq!(map_livekit_error("weird"), 500);
    assert_eq!(media_error_status("request timeout"), 503);
}

#[test]
fn migration_errors_that_are_harmless() {
    assert!(is_idempotent_migration_error("relation \"users\" ALREADY EXISTS"));
    assert!(is_idempotent_migration_error("duplicate column name"));
    assert!(is_idempotent_migration_error("Duplicate object"));
    assert!(!is_idempotent_migration_error("syntax error at or near"));
}

fn inst(status: InstanceStatus, start: Option<i64>, stop: Option<i64>) -> AgentInstance {
    let mut i = AgentInstance::new_container("r".to_string(), "i".to_string(), "d".to_string(), "c".to_string(), 0);
    i.status = status;
    i.started_at = start;
    i.stopped_at = stop;
    i
}

#[test]
fn project_usage_statistics() {
    let v = vec![
        inst(InstanceStatus::Running, Some(0), None),
        inst(InstanceStatus::Stopped, Some(0), Some(150 * 1_000_000)),
        inst(InstanceStatus::Stopped, Some(0), Some(61 * 60 * 1_000_000)),
        inst(InstanceStatus::Crashed, None, Some(5)),
    ];
    let s = AgentProjectStats::from_instances(&v);
    assert_eq!(s.active_sessions, 1);
    assert_eq!(s.total_minutes, 2 + 61);
    assert_eq!(s.quota_minutes, -1);
    let t = AgentStatusSummary::tally(3, &v);
    assert_eq!((t.total_agents, t.running_instances, t.stopped_instances, t.crashed_instances), (3, 1, 2, 1));
}
