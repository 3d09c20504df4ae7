//! The log capture pipeline: the two output streams of an instance, read a
//! line at a time, become log records tagged by the stream they came from.
//!
//! The reading itself is the caller's; each thing read is handed to
//! [`CaptureState::step`], which says what to persist and when the pipeline
//! is done.
use vstd::prelude::*;
use vstd::string::StringExecFns;
use crate::text::strings_of;

verus! {

/// The two output streams of an instance.
#[derive(Debug, Clone, Copy, PartialEq, Eq, Structural)]
pub enum StreamKind {
    Stdout,
    Stderr,
}

/// Severity of a log record.
#[derive(Debug, Clone, Copy, PartialEq, Eq, Structural)]
pub enum LogLevel {
    Info,
    Error,
}

/// What reading a stream gave.
#[derive(Debug, Clone)]
pub enum StreamEvent {
    Line(StreamKind, String),
    /// The stream reached its end, or could not be read any further.
    Closed(StreamKind),
}

/// A record to persist.
#[derive(Debug, Clone)]
pub struct LogLine {
    pub level: LogLevel,
    pub message: String,
}

/// Which streams are still open.
#[derive(Debug, Clone, Copy, PartialEq, Eq, Structural)]
pub struct CaptureState {
    pub stdout_open: bool,
    pub stderr_open: bool,
}

pub open spec fn level_of(k: StreamKind) -> LogLevel {
    match k {
        StreamKind::Stdout => LogLevel::Info,
        StreamKind::Stderr => LogLevel::Error,
    }
}

pub open spec fn is_open(s: CaptureState, k: StreamKind) -> bool {
    match k {
        StreamKind::Stdout => s.stdout_open,
        StreamKind::Stderr => s.stderr_open,
    }
}

/// One step: a line on an open stream becomes a record of that stream's
/// level; an end closes its stream.
pub open spec fn step_spec(s: CaptureState, e: StreamEvent) -> (CaptureState, Option<(LogLevel, Seq<char>)>) {
    match e {
        StreamEvent::Line(k, text) => if is_open(s, k) {
            (s, Some((level_of(k), text@)))
        } else {
            (s, None)
        },
        StreamEvent::Closed(StreamKind::Stdout) => (CaptureState { stdout_open: false, ..s }, None),
        StreamEvent::Closed(StreamKind::Stderr) => (CaptureState { stderr_open: false, ..s }, None),
    }
}

/// The state and the records after a whole run of events, from both streams
/// open.
pub open spec fn capture_spec(events: Seq<StreamEvent>) -> (CaptureState, Seq<(LogLevel, Seq<char>)>)
    decreases events.len(),
{
    if events.len() == 0 {
        (CaptureState { stdout_open: true, stderr_open: true }, Seq::empty())
    } else {
        let (s, out) = capture_spec(events.drop_last());
        let (s2, rec) = step_spec(s, events.last());
        (s2, match rec {
            Some(r) => out.push(r),
            None => out,
        })
    }
}

pub open spec fn line_view(l: LogLine) -> (LogLevel, Seq<char>) {
    (l.level, l.message@)
}

impl CaptureState {
    /// Both streams open.
    pub fn new() -> (r: CaptureState)
        ensures
            r == (CaptureState { stdout_open: true, stderr_open: true }),
    {
        CaptureState { stdout_open: true, stderr_open: true }
    }

    /// The pipeline ends once both streams have ended.
    pub fn is_finished(&self) -> (r: bool)
        ensures
            r == (!self.stdout_open && !self.stderr_open),
    {
        !self.stdout_open && !self.stderr_open
    }

    /// Takes one event; returns the record to persist, if any.
    pub fn step(&mut self, event: StreamEvent) -> (r: Option<LogLine>)
        ensures
            (*final(self), match r {
                Some(l) => Some(line_view(l)),
                None => None,
            }) == step_spec(*old(self), event),
    {
        match event {
            StreamEvent::Line(k, text) => {
                let open = match k {
                    StreamKind::Stdout => self.stdout_open,
                    StreamKind::Stderr => self.stderr_open,
                };
                if open {
                    Some(LogLine { level: level_for(k), message: text })
                } else {
                    None
                }
            },
            StreamEvent::Closed(StreamKind::Stdout) => {
                self.stdout_open = false;
                None
            },
            StreamEvent::Closed(StreamKind::Stderr) => {
                self.stderr_open = false;
                None
            },
        }
    }
}

/// `INFO` for the standard output, `ERROR` for the standard error.
pub fn level_for(kind: StreamKind) -> (r: LogLevel)
    ensures
        r == level_of(kind),
{
    match kind {
        StreamKind::Stdout => LogLevel::Info,
        StreamKind::Stderr => LogLevel::Error,
    }
}

/// The level's name as it is stored.
pub fn level_name(level: LogLevel) -> (r: String)
    ensures
        r@ == (match level {
            LogLevel::Info => "INFO"@,
            LogLevel::Error => "ERROR"@,
        }),
{
    match level {
        LogLevel::Info => String::from_str("INFO"),
        LogLevel::Error => String::from_str("ERROR"),
    }
}

/// Runs the pipeline over a whole sequence of events.
pub fn capture_all(events: Vec<StreamEvent>) -> (r: (CaptureState, Vec<LogLine>))
    ensures
        (r.0, r.1@.map_values(|l: LogLine| line_view(l))) == capture_spec(events@),
{
    let mut state = CaptureState::new();
    let mut out: Vec<LogLine> = Vec::new();
    let mut i: usize = 0;
    proof {
        assert(events@.subrange(0, 0) =~= Seq::<StreamEvent>::empty());
        assert(out@.map_values(|l: LogLine| line_view(l)) =~= Seq::<(LogLevel, Seq<char>)>::empty());
    }
    while i < events.len()
        invariant
            i <= events.len(),
            (state, out@.map_values(|l: LogLine| line_view(l))) == capture_spec(events@.subrange(0, i as int)),
        decreases events.len() - i,
    {
        let ghost pre = events@.subrange(0, i + 1);
        proof {
            assert(pre.drop_last() =~= events@.subrange(0, i as int));
        }
        let ev = events[i].clone_event();
        match state.step(ev) {
            Some(l) => {
                out.push(l);
                proof {
                    assert(out@.map_values(|l: LogLine| line_view(l)) =~= capture_spec(pre).1);
                }
            },
            None => {},
        }
        i = i + 1;
    }
    proof {
        assert(events@.subrange(0, events@.len() as int) =~= events@);
    }
    (state, out)
}

impl StreamEvent {
    /// A copy of the event.
    pub fn clone_event(&self) -> (r: StreamEvent)
        ensures
            r == *self,
    {
        match self {
            StreamEvent::Line(k, t) => StreamEvent::Line(*k, t.clone()),
            StreamEvent::Closed(k) => StreamEvent::Closed(*k),
        }
    }
}

/// How many lines a stream gives in a run of events.
pub open spec fn lines_of(events: Seq<StreamEvent>, k: StreamKind) -> nat
    decreases events.len(),
{
    if events.len() == 0 {
        0
    } else {
        lines_of(events.drop_last(), k) + (if events.last() matches StreamEvent::Line(k2, _) && k2 == k { 1nat } else { 0nat })
    }
}

/// How many records of a level a run persisted.
pub open spec fn records_of(out: Seq<(LogLevel, Seq<char>)>, l: LogLevel) -> nat
    decreases out.len(),
{
    if out.len() == 0 {
        0
    } else {
        records_of(out.drop_last(), l) + (if out.last().0 == l { 1nat } else { 0nat })
    }
}

pub open spec fn closes(events: Seq<StreamEvent>, k: StreamKind) -> bool {
    exists|i: int| 0 <= i < events.len() && events[i] == StreamEvent::Closed(k)
}

pub open spec fn closed_kind(e: StreamEvent) -> Option<StreamKind> {
    match e {
        StreamEvent::Closed(k) => Some(k),
        StreamEvent::Line(..) => None,
    }
}

pub open spec fn line_kind(e: StreamEvent) -> Option<StreamKind> {
    match e {
        StreamEvent::Line(k, _) => Some(k),
        StreamEvent::Closed(_) => None,
    }
}

/// No stream gives a line after its end.
pub open spec fn lines_before_end(events: Seq<StreamEvent>) -> bool {
    forall|i: int, j: int|
        0 <= i < j < events.len() && closed_kind(#[trigger] events[i]) is Some ==> line_kind(
            #[trigger] events[j]) != closed_kind(events[i])
}

proof fn lemma_capture_counts(events: Seq<StreamEvent>)
    requires
        lines_before_end(events),
    ensures
        records_of(capture_spec(events).1, LogLevel::Info) == lines_of(events, StreamKind::Stdout),
        records_of(capture_spec(events).1, LogLevel::Error) == lines_of(events, StreamKind::Stderr),
        capture_spec(events).0.stdout_open == !closes(events, StreamKind::Stdout),
        capture_spec(events).0.stderr_open == !closes(events, StreamKind::Stderr),
    decreases events.len(),
{
    if events.len() > 0 {
        let pre = events.drop_last();
        assert(lines_before_end(pre)) by {
            assert forall|i: int, j: int|
                0 <= i < j < pre.len() && closed_kind(#[trigger] pre[i]) is Some implies line_kind(
                    #[trigger] pre[j]) != closed_kind(pre[i]) by {
                assert(pre[i] == events[i] && pre[j] == events[j]);
            }
        }
        lemma_capture_counts(pre);
        let e = events.last();
        let n = events.len() - 1;
        assert(e == events[n]);
        if let StreamEvent::Line(k, _) = e {
            if closes(pre, k) {
                let i = choose|i: int| 0 <= i < pre.len() && pre[i] == StreamEvent::Closed(k);
                assert(events[i] == StreamEvent::Closed(k));
                assert(closed_kind(events[i]) == Some(k));
                assert(line_kind(events[n]) == Some(k));
                assert(false);
            }
        }
        assert(closes(events, StreamKind::Stdout) == (closes(pre, StreamKind::Stdout) || e == StreamEvent::Closed(StreamKind::Stdout))) by {
            if closes(events, StreamKind::Stdout) && e != StreamEvent::Closed(StreamKind::Stdout) {
                let i = choose|i: int| 0 <= i < events.len() && events[i] == StreamEvent::Closed(StreamKind::Stdout);
                assert(pre[i] == events[i]);
            }
            if closes(pre, StreamKind::Stdout) {
                let i = choose|i: int| 0 <= i < pre.len() && pre[i] == StreamEvent::Closed(StreamKind::Stdout);
                assert(events[i] == pre[i]);
            }
        }
        assert(closes(events, StreamKind::Stderr) == (closes(pre, StreamKind::Stderr) || e == StreamEvent::Closed(StreamKind::Stderr))) by {
            if closes(events, StreamKind::Stderr) && e != StreamEvent::Closed(StreamKind::Stderr) {
                let i = choose|i: int| 0 <= i < events.len() && events[i] == StreamEvent::Closed(StreamKind::Stderr);
                assert(pre[i] == events[i]);
            }
            if closes(pre, StreamKind::Stderr) {
                let i = choose|i: int| 0 <= i < pre.len() && pre[i] == StreamEvent::Closed(StreamKind::Stderr);
                assert(events[i] == pre[i]);
            }
        }
        let out = capture_spec(pre).1;
        let (s2, rec) = step_spec(capture_spec(pre).0, e);
        match rec {
            Some(r) => {
                assert(out.push(r).drop_last() =~= out);
            },
            None => {},
        }
    }
}

/// Given lines on both streams and then the end of both, in any interleaving,
/// the pipeline persists one `INFO` record per line of the standard output,
/// one `ERROR` record per line of the standard error, and is finished.
pub proof fn lemma_capture_drains(events: Seq<StreamEvent>)
    requires
        lines_before_end(events),
        closes(events, StreamKind::Stdout),
        closes(events, StreamKind::Stderr),
    ensures
        records_of(capture_spec(events).1, LogLevel::Info) == lines_of(events, StreamKind::Stdout),
        records_of(capture_spec(events).1, LogLevel::Error) == lines_of(events, StreamKind::Stderr),
        !capture_spec(events).0.stdout_open && !capture_spec(events).0.stderr_open,
{
    lemma_capture_counts(events);
}

/// A line of a log snapshot, marked with its stream.
pub fn snapshot_line(kind: StreamKind, line: &str) -> (r: String)
    ensures
        r@ == (match kind {
            StreamKind::Stdout => "[STDOUT] "@,
            StreamKind::Stderr => "[STDERR] "@,
        }) + line@,
{
    match kind {
        StreamKind::Stdout => String::from_str("[STDOUT] ").concat(line),
        StreamKind::Stderr => String::from_str("[STDERR] ").concat(line),
    }
}

pub open spec fn tagged(kind: StreamKind, line: Seq<char>) -> Seq<char> {
    (match kind {
        StreamKind::Stdout => "[STDOUT] "@,
        StreamKind::Stderr => "[STDERR] "@,
    }) + line
}

/// A bounded snapshot of recent output: lines marked with their stream, read
/// until `limit` lines are held or both streams have ended.
#[derive(Debug, Clone)]
pub struct Snapshot {
    pub capture: CaptureState,
    pub lines: Vec<String>,
    pub limit: usize,
}

impl Snapshot {
    pub open spec fn done_spec(&self) -> bool {
        self.lines@.len() >= self.limit || (!self.capture.stdout_open && !self.capture.stderr_open)
    }

    /// An empty snapshot of at most `limit` lines, both streams open.
    pub fn new(limit: usize) -> (r: Snapshot)
        ensures
            r.lines@.len() == 0,
            r.limit == limit,
            r.capture == (CaptureState { stdout_open: true, stderr_open: true }),
    {
        Snapshot { capture: CaptureState::new(), lines: Vec::new(), limit }
    }

    /// Whether reading should stop.
    pub fn is_done(&self) -> (r: bool)
        ensures
            r == self.done_spec(),
    {
        self.lines.len() >= self.limit || self.capture.is_finished()
    }

    /// Takes one event. Once the snapshot is done nothing changes; before,
    /// the event goes through the capture step and a record becomes one more
    /// marked line. The snapshot never holds more than `limit` lines.
    pub fn take(&mut self, event: StreamEvent)
        requires
            old(self).lines@.len() <= old(self).limit,
        ensures
            final(self).limit == old(self).limit,
            final(self).lines@.len() <= final(self).limit,
            old(self).done_spec() ==> *final(self) == *old(self),
            !old(self).done_spec() ==> ({
                let (st, rec) = step_spec(old(self).capture, event);
                &&& final(self).capture == st
                &&& match rec {
                    Some(r) => strings_of(final(self).lines@) == strings_of(old(self).lines@).push(tagged(
                        event->Line_0,
                        r.1,
                    )),
                    None => final(self).lines@ == old(self).lines@,
                }
            }),
    {
        if self.is_done() {
            return;
        }
        let kind = match &event {
            StreamEvent::Line(k, _) => *k,
            StreamEvent::Closed(k) => *k,
        };
        match self.capture.step(event) {
            Some(l) => {
                let line = snapshot_line(kind, l.message.as_str());
                self.lines.push(line);
                proof {
                    assert(strings_of(self.lines@) =~= strings_of(old(self).lines@).push(line@));
                }
            },
            None => {},
        }
    }
}

/// A stored record as a line of text: `[timestamp] [level] message`.
pub fn format_log_record(timestamp: &str, level: &str, message: &str) -> (r: String)
    ensures
        r@ == "["@ + timestamp@ + "] ["@ + level@ + "] "@ + message@,
{
    String::from_str("[").concat(timestamp).concat("] [").concat(level).concat("] ").concat(message)
}

pub open spec fn joined(lines: Seq<Seq<char>>) -> Seq<char>
    decreases lines.len(),
{
    if lines.len() == 0 {
        Seq::empty()
    } else if lines.len() == 1 {
        lines[0]
    } else {
        joined(lines.drop_last()) + seq!['\n'] + lines.last()
    }
}

/// The lines joined by newlines.
pub fn join_lines(lines: &Vec<String>) -> (r: String)
    ensures
        r@ == joined(strings_of(lines@)),
{
    let mut r = String::new();
    let mut i: usize = 0;
    while i < lines.len()
        invariant
            i <= lines.len(),
            r@ == joined(strings_of(lines@).subrange(0, i as int)),
        decreases lines.len() - i,
    {
        let ghost pre = strings_of(lines@).subrange(0, i + 1);
        proof {
            assert(pre.drop_last() =~= strings_of(lines@).subrange(0, i as int));
        }
        if i > 0 {
            r.push('\n');
        }
        r.append(lines[i].as_str());
        proof {
            if i == 0 {
                assert(r@ =~= joined(pre));
            } else {
                assert(r@ =~= joined(pre));
            }
        }
        i = i + 1;
    }
    proof {
        assert(strings_of(lines@).subrange(0, lines@.len() as int) =~= strings_of(lines@));
    }
    r
}

} // verus!
