use agent_supervisor::lists::normalize_string_list;
use agent_supervisor::models::projects::{map_project_to_response, ProjectRecord};
use agent_supervisor::passwords::{check_password, validate_password};
use agent_supervisor::sql::{split_sql_statements, statement_preview};
use agent_supervisor::text::{i64_text, split_on, trim, to_ascii_lower};
use agent_supervisor::web::{constant_time_eq, cors_allow_origin, is_origin_allowed, parse_allowed_origins, trim_trailing_slash};

#[test]
fn secrets_compare_by_bytes() {
    assert!(constant_time_eq("sha256=abc", "sha256=abc"));
    assert!(!constant_time_eq("sha256=abc", "sha256=abd"));
    assert!(!constant_time_eq("abc", "abcd"));
    assert!(constant_time_eq("", ""));
}

#[test]
fn base_urls_lose_trailing_slashes() {
    assert_eq!(trim_trailing_slash("  http://media:7880/// "), "http://media:7880");
    assert_eq!(trim_trailing_slash("https://x"), "https://x");
    assert_eq!(trim_trailing_slash("///"), "");
}

#[test]
fn origins_match_without_case_or_slash() {
    let allowed = vec!["http://localhost:3000/".to_string(), "https://Admin.Example.com".to_string()];
    assert!(is_origin_allowed("http://localhost:3000", &allowed));
    assert!(is_origin_allowed("https://admin.example.com/", &allowed));
    assert!(!is_origin_allowed("https://evil.example.com", &allowed));
    assert!(!is_origin_allowed("http://localhost:3000", &[]));
}

#[test]
fn string_lists_are_normalized() {
    let v = vec![" B ".to_string(), "a".to_string(), "".to_string(), "b".to_string(), "  ".to_string(), "C".to_string()];
    assert_eq!(normalize_string_list(v), vec!["a", "b", "c"]);
    assert!(normalize_string_list(vec![]).is_empty());
    assert_eq!(normalize_string_list(vec!["ab".to_string(), "a".to_string()]), vec!["a", "ab"]);
}

#[test]
fn passwords_are_checked_in_order() {
    assert_eq!(validate_password("Short1!"), Err("Password must be at least 12 characters long".to_string()));
    assert_eq!(validate_password(&"Aa1!".repeat(33)), Err("Password is too long".to_string()));
    assert_eq!(validate_password("lowercase123!"), Err("Password must contain at least one uppercase letter".to_string()));
    assert_eq!(validate_password("UPPERCASE123!"), Err("Password must contain at least one lowercase letter".to_string()));
    assert_eq!(validate_password("NoDigitsHere!!"), Err("Password must contain at least one digit".to_string()));
    assert_eq!(validate_password("NoSpecials1234"), Err("Password must contain at least one special character".to_string()));
    assert_eq!(validate_password("MyPassWord1!xyz"), Err("Password is too common or easily guessable".to_string()));
    assert_eq!(validate_password("Tr0ub4dor&3horse"), Ok(()));
    assert_eq!(check_password("Tr0ub4dor&3horse", "contains admin"), Err("Password is too common or easily guessable".to_string()));
}

#[test]
fn sql_scripts_split_into_statements() {
    let script = "CREATE TABLE a (x TEXT DEFAULT 'a;b'); -- note; here\nINSERT INTO a VALUES ('it''s');\n/* block; */ SELECT \"semi;colon\" ;  ;\nSELECT 1";
    let got = split_sql_statements(script);
    assert_eq!(
        got,
        vec![
            "CREATE TABLE a (x TEXT DEFAULT 'a;b')",
            "INSERT INTO a VALUES ('it''s')",
            "SELECT \"semi;colon\"",
            "SELECT 1",
        ]
    );
    assert!(split_sql_statements("  ;; -- only a comment").is_empty());
}

#[test]
fn statement_previews_are_compact() {
    assert_eq!(statement_preview("  SELECT *\n\tFROM   t  "), "SELECT * FROM t");
    let long = "x ".repeat(300);
    let p = statement_preview(&long);
    assert_eq!(p.chars().count(), 200);
    assert!(p.starts_with("x x x"));
}

#[test]
fn projects_map_to_responses() {
    let r = map_project_to_response(ProjectRecord {
        id: "p1".to_string(),
        short_id: "abc".to_string(),
        user_id: "u1".to_string(),
        name: "Demo".to_string(),
        description: None,
        status: "active".to_string(),
        created_at: Some("2024-01-01 00:00:00".to_string()),
        updated_at: None,
    });
    assert_eq!(r.short_id.as_deref(), Some("abc"));
    assert_eq!(r.user_id.as_deref(), Some("u1"));
    assert_eq!(r.created_at, "2024-01-01 00:00:00");
    assert_eq!(r.updated_at, "");
}

#[test]
fn text_helpers() {
    assert_eq!(trim("\u{3000} hi \n"), "hi");
    assert_eq!(to_ascii_lower("MiXeD ÄB"), "mixed Äb");
    assert_eq!(split_on("a,,b", ','), vec!["a", "", "b"]);
    assert_eq!(split_on("", ','), vec![""]);
    assert_eq!(i64_text(-9223372036854775808), "-9223372036854775808");
    assert_eq!(i64_text(0), "0");
}

#[test]
fn allowed_origins_and_cors_header() {
    assert_eq!(parse_allowed_origins(None), vec!["http://localhost:3000", "http://127.0.0.1:3000"]);
    let allowed = parse_allowed_origins(Some(" https://a.example , https://b.example/ "));
    assert_eq!(allowed, vec!["https://a.example", "https://b.example/"]);
    assert_eq!(cors_allow_origin(Some("https://B.example"), &allowed), "https://B.example");
    assert_eq!(cors_allow_origin(Some("https://c.example"), &allowed), "null");
    assert_eq!(cors_allow_origin(None, &allowed), "null");
}
