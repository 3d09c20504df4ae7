use agent_supervisor::metrics::{
    collect_docker_metrics, collect_process_metrics, parse_cpu_percent, parse_decimal, parse_docker_stats,
    parse_memory_usage, uptime_reading, Quantity,
};

fn value(q: Quantity) -> f64 {
    q.numerator as f64 / q.denominator as f64
}

#[test]
fn memory_mib_is_megabytes() {
    let q = parse_memory_usage("512MiB").unwrap();
    assert_eq!(value(q), 512.0);
}

#[test]
fn memory_gib_is_1024_megabytes() {
    let q = parse_memory_usage("2GiB").unwrap();
    assert_eq!(value(q), 2048.0);
}

#[test]
fn memory_kib_is_a_fraction_of_a_megabyte() {
    let q = parse_memory_usage("256KiB").unwrap();
    assert_eq!(value(q), 0.25);
    assert_eq!(q, Quantity { numerator: 256, denominator: 1024 });
}

#[test]
fn memory_with_unknown_unit_gives_nothing() {
    assert_eq!(parse_memory_usage("512MB"), None);
    assert_eq!(parse_memory_usage("12"), None);
    assert_eq!(parse_memory_usage(""), None);
    assert_eq!(parse_memory_usage("abcMiB"), None);
}

#[test]
fn memory_with_fraction_and_spaces() {
    let q = parse_memory_usage("  1.5GiB ").unwrap();
    assert_eq!(value(q), 1536.0);
    let q = parse_memory_usage("12.25 MiB").unwrap();
    assert_eq!(q, Quantity { numerator: 1225, denominator: 100 });
}

#[test]
fn decimal_forms() {
    assert_eq!(parse_decimal("42"), Some((42, 1)));
    assert_eq!(parse_decimal("3.14"), Some((314, 100)));
    assert_eq!(parse_decimal(".5"), Some((5, 10)));
    assert_eq!(parse_decimal("1.2.3"), None);
    assert_eq!(parse_decimal("."), None);
    assert_eq!(parse_decimal("-1"), None);
    assert_eq!(parse_decimal("1234567890123456"), None);
    assert_eq!(parse_decimal("123456789012345"), Some((123456789012345, 1)));
}

#[test]
fn cpu_percent_reading() {
    let q = parse_cpu_percent("12.50%").unwrap();
    assert_eq!(value(q), 12.5);
    assert_eq!(parse_cpu_percent("n/a%"), None);
}

#[test]
fn stats_line_gives_cpu_and_memory() {
    let r = parse_docker_stats("0.52%,123.4MiB / 1.944GiB,1.2kB / 0B,0B / 0B\n");
    assert_eq!(r.len(), 2);
    assert_eq!(r[0].name, "cpu_percent");
    assert_eq!(r[0].unit, "%");
    assert_eq!(value(r[0].value), 0.52);
    assert_eq!(r[1].name, "memory_usage_mb");
    assert_eq!(r[1].unit, "MB");
    assert_eq!(value(r[1].value), 123.4);
}

#[test]
fn stats_line_skips_unreadable_fields() {
    let r = parse_docker_stats("--,256KiB / 1GiB");
    assert_eq!(r.len(), 1);
    assert_eq!(r[0].name, "memory_usage_mb");
    assert_eq!(parse_docker_stats("0.5%").len(), 0);
    let r = parse_docker_stats("1%,42 bytes");
    assert_eq!(r.len(), 1);
    assert_eq!(r[0].name, "cpu_percent");
}

#[test]
fn uptime_from_start_time() {
    // 2024-01-01T00:00:00Z is 1704067200 s after the epoch.
    let now = (1704067200i64 + 90) * 1_000_000 + 999_999;
    let r = uptime_reading("2024-01-01T00:00:00Z\n", now).unwrap();
    assert_eq!(r.name, "uptime_seconds");
    assert_eq!(r.unit, "s");
    assert_eq!(r.value, Quantity { numerator: 90, denominator: 1 });
    assert!(uptime_reading("yesterday", now).is_none());
}

#[test]
fn container_metrics_in_order() {
    let now = 1704067260i64 * 1_000_000;
    let r = collect_docker_metrics(Some("5%,1GiB / 2GiB"), Some("2024-01-01T00:00:00+00:00"), now);
    let names: Vec<&str> = r.iter().map(|m| m.name.as_str()).collect();
    assert_eq!(names, vec!["cpu_percent", "memory_usage_mb", "uptime_seconds"]);
    assert_eq!(r[2].value.numerator, 60);
    assert_eq!(collect_docker_metrics(None, None, now).len(), 0);
}

#[test]
fn process_metrics_report_running() {
    let r = collect_process_metrics();
    assert_eq!(r.len(), 1);
    assert_eq!(r[0].name, "process_running");
    assert_eq!(r[0].unit, "boolean");
    assert_eq!(value(r[0].value), 1.0);
}

#[test]
fn stats_line_with_unknown_memory_unit_keeps_cpu() {
    let r = parse_docker_stats("1.50%,512MB / 1GB,0B / 0B,0B / 0B");
    assert_eq!(r.len(), 1);
    assert_eq!(r[0].name, "cpu_percent");
    assert_eq!(value(r[0].value), 1.5);
    assert!(r.iter().all(|m| m.name != "memory_usage_mb"));
}
