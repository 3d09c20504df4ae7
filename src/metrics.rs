//! Readings of the execution backends, normalized into metric samples.
//!
//! Quantities are exact fractions: a reading of `1.5GiB` is 1536 MB, one of
//! `256KiB` is 256/1024 MB.
use vstd::prelude::*;
use vstd::string::{StrSliceExecFns, StringExecFns};
use crate::text::{split_on, split_spec, strings_of, strip_suffix_spec, strip_suffix_text, trim, trim_end_char, trimmed, is_trim_end_of};

verus! {

/// The largest number of digits a decimal reading may have.
pub const MAX_DIGITS: u64 = 15;

/// An exact quantity, `numerator / denominator`.
#[derive(Debug, Clone, Copy, PartialEq, Eq, Structural)]
pub struct Quantity {
    pub numerator: i64,
    pub denominator: u64,
}

/// One metric reading of an instance.
#[derive(Debug, Clone)]
pub struct MetricReading {
    pub name: String,
    pub value: Quantity,
    pub unit: String,
}

pub open spec fn digit_value(c: char) -> nat {
    (c as u32 - '0' as u32) as nat
}

pub open spec fn is_digit(c: char) -> bool {
    '0' <= c && c <= '9'
}

/// The state of reading a decimal left to right: whether it is still well
/// formed, whether the point was seen, how many digits, their value, and how
/// many of them follow the point.
pub struct DecimalScan {
    pub valid: bool,
    pub seen_point: bool,
    pub digits: nat,
    pub mantissa: nat,
    pub scale: nat,
}

pub open spec fn scan_decimal(s: Seq<char>) -> DecimalScan
    decreases s.len(),
{
    if s.len() == 0 {
        DecimalScan { valid: true, seen_point: false, digits: 0, mantissa: 0, scale: 0 }
    } else {
        let p = scan_decimal(s.drop_last());
        let c = s.last();
        if !p.valid {
            p
        } else if c == '.' {
            if p.seen_point {
                DecimalScan { valid: false, ..p }
            } else {
                DecimalScan { seen_point: true, ..p }
            }
        } else if is_digit(c) && p.digits < MAX_DIGITS {
            DecimalScan {
                digits: p.digits + 1,
                mantissa: p.mantissa * 10 + digit_value(c),
                scale: if p.seen_point { p.scale + 1 } else { p.scale },
                ..p
            }
        } else {
            DecimalScan { valid: false, ..p }
        }
    }
}

/// A decimal number: digits with at most one point, at least one digit and at
/// most `MAX_DIGITS` of them. Its value is `mantissa / 10^scale`.
pub open spec fn decimal_spec(s: Seq<char>) -> Option<(nat, nat)> {
    let d = scan_decimal(s);
    if d.valid && d.digits >= 1 {
        Some((d.mantissa, d.scale))
    } else {
        None
    }
}

proof fn lemma_scan_bounds(s: Seq<char>)
    ensures
        scan_decimal(s).valid ==> scan_decimal(s).mantissa < pow10(scan_decimal(s).digits),
        scan_decimal(s).digits <= MAX_DIGITS,
        scan_decimal(s).scale <= scan_decimal(s).digits,
    decreases s.len(),
{
    if s.len() > 0 {
        lemma_scan_bounds(s.drop_last());
        let p = scan_decimal(s.drop_last());
        if p.valid && is_digit(s.last()) && p.digits < MAX_DIGITS {
            assert(pow10(p.digits + 1) == 10 * pow10(p.digits));
            assert(digit_value(s.last()) <= 9);
            assert(p.mantissa * 10 + digit_value(s.last()) < 10 * pow10(p.digits)) by (nonlinear_arith)
                requires
                    p.mantissa < pow10(p.digits),
                    digit_value(s.last()) <= 9,
            ;
        }
    }
}

pub open spec fn pow10(n: nat) -> nat
    decreases n,
{
    if n == 0 { 1 } else { 10 * pow10((n - 1) as nat) }
}

proof fn lemma_pow10_15()
    ensures
        pow10(15) == 1000000000000000,
{
    reveal_with_fuel(pow10, 16);
}

proof fn lemma_pow10_mono(a: nat, b: nat)
    requires
        a <= b,
    ensures
        pow10(a) <= pow10(b),
    decreases b,
{
    if a < b {
        lemma_pow10_mono(a, (b - 1) as nat);
    }
}

/// The value of a decimal reading as `(mantissa, 10^scale)`.
pub fn parse_decimal(s: &str) -> (r: Option<(u64, u64)>)
    ensures
        match decimal_spec(s@) {
            Some((m, sc)) => r == Some((m as u64, pow10(sc) as u64)) && m < pow10(MAX_DIGITS as nat)
                && pow10(sc) <= pow10(MAX_DIGITS as nat),
            None => r is None,
        },
{
    let n = s.unicode_len();
    let mut valid = true;
    let mut seen_point = false;
    let mut digits: u64 = 0;
    let mut mantissa: u64 = 0;
    let mut scale: u64 = 0;
    let mut denom: u64 = 1;
    let mut i: usize = 0;
    proof {
        assert(s@.subrange(0, 0) =~= Seq::<char>::empty());
        lemma_pow10_15();
    }
    while i < n
        invariant
            n == s@.len(),
            i <= n,
            pow10(15) == 1000000000000000,
            scan_decimal(s@.subrange(0, i as int)) == (DecimalScan {
                valid,
                seen_point,
                digits: digits as nat,
                mantissa: mantissa as nat,
                scale: scale as nat,
            }),
            denom == pow10(scale as nat),
        decreases n - i,
    {
        let c = s.get_char(i);
        let ghost pre = s@.subrange(0, i + 1);
        proof {
            assert(pre.drop_last() =~= s@.subrange(0, i as int));
            assert(pre.last() == c);
            lemma_scan_bounds(s@.subrange(0, i as int));
            lemma_pow10_mono(digits as nat, 15);
            lemma_pow10_mono(scale as nat, 15);
        }
        if valid {
            if c == '.' {
                if seen_point {
                    valid = false;
                } else {
                    seen_point = true;
                }
            } else if '0' <= c && c <= '9' && digits < MAX_DIGITS {
                let d: u64 = (c as u32 - '0' as u32) as u64;
                mantissa = mantissa * 10 + d;
                digits = digits + 1;
                if seen_point {
                    scale = scale + 1;
                    denom = denom * 10;
                }
            } else {
                valid = false;
            }
        }
        i = i + 1;
    }
    proof {
        assert(s@.subrange(0, n as int) =~= s@);
        lemma_scan_bounds(s@);
        lemma_pow10_mono(digits as nat, 15);
        lemma_pow10_mono(scale as nat, 15);
    }
    if valid && digits >= 1 {
        Some((mantissa, denom))
    } else {
        None
    }
}

/// A memory reading in MB, as a fraction: `MiB` as is, `GiB` times 1024,
/// `KiB` divided by 1024; no reading for any other unit.
pub open spec fn memory_mb_spec(s: Seq<char>) -> Option<(int, int)> {
    let t = trimmed(s);
    if strip_suffix_spec(t, "MiB"@) is Some {
        match decimal_spec(trimmed(strip_suffix_spec(t, "MiB"@)->Some_0)) {
            Some((m, sc)) => Some((m as int, pow10(sc) as int)),
            None => None,
        }
    } else if strip_suffix_spec(t, "GiB"@) is Some {
        match decimal_spec(trimmed(strip_suffix_spec(t, "GiB"@)->Some_0)) {
            Some((m, sc)) => Some(((m * 1024) as int, pow10(sc) as int)),
            None => None,
        }
    } else if strip_suffix_spec(t, "KiB"@) is Some {
        match decimal_spec(trimmed(strip_suffix_spec(t, "KiB"@)->Some_0)) {
            Some((m, sc)) => Some((m as int, (pow10(sc) * 1024) as int)),
            None => None,
        }
    } else {
        None
    }
}

/// A reading whose unit is none of `MiB`, `GiB` and `KiB` gives no memory
/// value.
pub proof fn lemma_unknown_unit_no_reading(s: Seq<char>)
    requires
        strip_suffix_spec(trimmed(s), "MiB"@) is None,
        strip_suffix_spec(trimmed(s), "GiB"@) is None,
        strip_suffix_spec(trimmed(s), "KiB"@) is None,
    ensures
        memory_mb_spec(s) is None,
{
}

pub open spec fn quantity_is(q: Quantity, v: (int, int)) -> bool {
    q.numerator == v.0 && q.denominator == v.1
}

/// Memory usage in MB of a reading such as `512MiB`, `2GiB` or `256KiB`.
pub fn parse_memory_usage(mem: &str) -> (r: Option<Quantity>)
    ensures
        match memory_mb_spec(mem@) {
            Some(v) => r is Some && quantity_is(r->Some_0, v),
            None => r is None,
        },
{
    proof {
        lemma_pow10_15();
    }
    let t = trim(mem);
    match strip_suffix_text(t.as_str(), "MiB") {
        Some(num) => {
            let v = trim(num.as_str());
            return match parse_decimal(v.as_str()) {
                Some((m, d)) => Some(Quantity { numerator: m as i64, denominator: d }),
                None => None,
            };
        },
        None => {},
    }
    match strip_suffix_text(t.as_str(), "GiB") {
        Some(num) => {
            let v = trim(num.as_str());
            return match parse_decimal(v.as_str()) {
                Some((m, d)) => Some(Quantity { numerator: (m * 1024) as i64, denominator: d }),
                None => None,
            };
        },
        None => {},
    }
    match strip_suffix_text(t.as_str(), "KiB") {
        Some(num) => {
            let v = trim(num.as_str());
            match parse_decimal(v.as_str()) {
                Some((m, d)) => Some(Quantity { numerator: m as i64, denominator: d * 1024 }),
                None => None,
            }
        },
        None => None,
    }
}

/// CPU use in percent of a reading such as `12.5%`.
pub open spec fn cpu_percent_spec(s: Seq<char>) -> Option<(int, int)> {
    match decimal_spec(choose|r: Seq<char>| is_trim_end_of(r, s, '%')) {
        Some((m, sc)) => Some((m as int, pow10(sc) as int)),
        None => None,
    }
}

proof fn lemma_trim_end_unique(r1: Seq<char>, r2: Seq<char>, s: Seq<char>, c: char)
    requires
        is_trim_end_of(r1, s, c),
        is_trim_end_of(r2, s, c),
    ensures
        r1 == r2,
{
    let j1 = choose|j: int|
        0 <= j <= s.len() && r1 == s.subrange(0, j) && (forall|k: int| j <= k < s.len() ==> #[trigger] s[k] == c)
            && (j > 0 ==> s[j - 1] != c);
    let j2 = choose|j: int|
        0 <= j <= s.len() && r2 == s.subrange(0, j) && (forall|k: int| j <= k < s.len() ==> #[trigger] s[k] == c)
            && (j > 0 ==> s[j - 1] != c);
    if j1 < j2 {
        assert(s[j2 - 1] == c);
    } else if j2 < j1 {
        assert(s[j1 - 1] == c);
    }
}

pub fn parse_cpu_percent(cpu: &str) -> (r: Option<Quantity>)
    ensures
        match cpu_percent_spec(cpu@) {
            Some(v) => r is Some && quantity_is(r->Some_0, v),
            None => r is None,
        },
{
    let t = trim_end_char(cpu, '%');
    proof {
        let c = choose|r: Seq<char>| is_trim_end_of(r, cpu@, '%');
        lemma_trim_end_unique(c, t@, cpu@, '%');
        lemma_pow10_15();
    }
    match parse_decimal(t.as_str()) {
        Some((m, d)) => Some(Quantity { numerator: m as i64, denominator: d }),
        None => None,
    }
}

/// The name of a metric reading with its value and unit.
pub open spec fn reading_is(r: MetricReading, name: Seq<char>, v: (int, int), unit: Seq<char>) -> bool {
    r.name@ == name && quantity_is(r.value, v) && r.unit@ == unit
}

/// Readings of one line of the container runtime's stats, `cpu,memory,...`:
/// the CPU percentage where it reads, then the memory use (the part before
/// `/`) where it reads. A line of fewer than two fields gives none.
pub open spec fn stats_readings_ok(out: Seq<MetricReading>, line: Seq<char>) -> bool {
    let parts = split_spec(trimmed(line), ',');
    if parts.len() < 2 {
        out.len() == 0
    } else {
        let cpu = cpu_percent_spec(parts[0]);
        let mem = memory_mb_spec(split_spec(parts[1], '/')[0]);
        let nc: int = if cpu is Some { 1 } else { 0 };
        let nm: int = if mem is Some { 1 } else { 0 };
        out.len() == nc + nm
            && (cpu is Some ==> reading_is(out[0], "cpu_percent"@, cpu->Some_0, "%"@))
            && (mem is Some ==> reading_is(out[nc], "memory_usage_mb"@, mem->Some_0, "MB"@))
    }
}

/// The CPU and memory readings of a stats line.
pub fn parse_docker_stats(line: &str) -> (r: Vec<MetricReading>)
    ensures
        stats_readings_ok(r@, line@),
{
    let mut out: Vec<MetricReading> = Vec::new();
    let t = trim(line);
    let parts = split_on(t.as_str(), ',');
    if parts.len() < 2 {
        return out;
    }
    proof {
        assert(strings_of(parts@)[0] == parts@[0]@);
        assert(strings_of(parts@)[1] == parts@[1]@);
    }
    match parse_cpu_percent(parts[0].as_str()) {
        Some(q) => {
            out.push(MetricReading { name: String::from_str("cpu_percent"), value: q, unit: String::from_str("%") });
        },
        None => {},
    }
    let mem_parts = split_on(parts[1].as_str(), '/');
    proof {
        assert(strings_of(mem_parts@)[0] == mem_parts@[0]@);
    }
    match parse_memory_usage(mem_parts[0].as_str()) {
        Some(q) => {
            out.push(MetricReading { name: String::from_str("memory_usage_mb"), value: q, unit: String::from_str("MB") });
        },
        None => {},
    }
    out
}

/// The instant an RFC 3339 timestamp denotes, in microseconds since the Unix
/// epoch; none where the text is not such a timestamp.
pub uninterp spec fn rfc3339_micros(s: Seq<char>) -> Option<int>;

/// Relies on `chrono::DateTime::parse_from_rfc3339`, read out with
/// `timestamp_micros`: the instant the text denotes, or none.
#[verifier::external_body]
fn parse_rfc3339_micros(s: &str) -> (r: Option<i64>)
    ensures
        match r {
            Some(v) => rfc3339_micros(s@) == Some(v as int),
            None => rfc3339_micros(s@) is None,
        },
{
    match chrono::DateTime::parse_from_rfc3339(s) {
        Ok(d) => Some(d.timestamp_micros()),
        Err(_) => None,
    }
}

/// Whole seconds from `start` to `now`, both in microseconds, rounded toward
/// zero.
pub open spec fn whole_seconds(start: int, now: int) -> int {
    let d = now - start;
    if d >= 0 { d / 1000000 } else { -((-d) / 1000000) }
}

/// The uptime reading of a container from its start time, as the runtime
/// reports it, and the time now; none where the start time does not read.
pub fn uptime_reading(started_at: &str, now: i64) -> (r: Option<MetricReading>)
    ensures
        match rfc3339_micros(trimmed(started_at@)) {
            Some(start) => if -0x2000_0000_0000_0000 <= start <= 0x2000_0000_0000_0000 && -0x2000_0000_0000_0000 <= now <= 0x2000_0000_0000_0000 {
                r is Some && reading_is(r->Some_0, "uptime_seconds"@, (whole_seconds(start, now as int), 1), "s"@)
            } else {
                r is None
            },
            None => r is None,
        },
{
    let t = trim(started_at);
    match parse_rfc3339_micros(t.as_str()) {
        Some(start) => {
            if start < -0x2000_0000_0000_0000 || start > 0x2000_0000_0000_0000 || now < -0x2000_0000_0000_0000 || now > 0x2000_0000_0000_0000 {
                return None;
            }
            let d: i64 = now - start;
            let secs: i64 = if d >= 0 { d / 1000000 } else { -((-d) / 1000000) };
            Some(MetricReading { name: String::from_str("uptime_seconds"), value: Quantity { numerator: secs, denominator: 1 }, unit: String::from_str("s") })
        },
        None => None,
    }
}

/// The readings of a container: those of its stats line where the stats
/// command succeeded, then its uptime where the inspect command succeeded.
pub fn collect_docker_metrics(stats: Option<&str>, started_at: Option<&str>, now: i64) -> (r: Vec<MetricReading>)
    ensures
        exists|a: Seq<MetricReading>, b: Seq<MetricReading>|
            r@ == a + b && (match stats {
                Some(l) => stats_readings_ok(a, l@),
                None => a.len() == 0,
            }) && (match started_at {
                Some(s) => match rfc3339_micros(trimmed(s@)) {
                    Some(start) => if -0x2000_0000_0000_0000 <= start <= 0x2000_0000_0000_0000 && -0x2000_0000_0000_0000 <= now <= 0x2000_0000_0000_0000 {
                        b.len() == 1 && reading_is(b[0], "uptime_seconds"@, (whole_seconds(start, now as int), 1), "s"@)
                    } else {
                        b.len() == 0
                    },
                    None => b.len() == 0,
                },
                None => b.len() == 0,
            }),
{
    let mut out = match stats {
        Some(l) => parse_docker_stats(l),
        None => Vec::new(),
    };
    let ghost a = out@;
    match started_at {
        Some(s) => match uptime_reading(s, now) {
            Some(u) => {
                out.push(u);
                proof {
                    assert(out@ == a + seq![u]);
                }
            },
            None => {
                proof {
                    assert(out@ == a + Seq::<MetricReading>::empty());
                }
            },
        },
        None => {
            proof {
                assert(out@ == a + Seq::<MetricReading>::empty());
            }
        },
    }
    out
}

/// The reading of a process: it is running.
pub fn collect_process_metrics() -> (r: Vec<MetricReading>)
    ensures
        r@.len() == 1,
        reading_is(r@[0], "process_running"@, (1, 1), "boolean"@),
{
    let mut out: Vec<MetricReading> = Vec::new();
    out.push(MetricReading { name: String::from_str("process_running"), value: Quantity { numerator: 1, denominator: 1 }, unit: String::from_str("boolean") });
    out
}

} // verus!
