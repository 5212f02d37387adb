//! A bounded log buffer with a revision counter and a run-status tracker.
//!
//! The buffer keeps the newest `max_lines` lines; every change (push or
//! clear) advances the revision, so a reader holding a revision knows whether
//! it must copy the lines again.
use vstd::prelude::*;
use vstd::std_specs::vecdeque::*;
use vstd::string::*;

use crate::log_status::{idle_status, observe_spec, RunStatus, StatusView};
use crate::text::{contains_seq, int_dec, owned, push_int, starts_with_seq, str_contains, str_starts_with};

verus! {

/// Default line limit of a log buffer.
pub const DEFAULT_MAX_LINES: usize = 5000;

/// Severity of a log line.
#[derive(Debug, Clone, Copy, PartialEq, Eq)]
pub enum LogLevel {
    /// Ordinary line.
    Info,
    /// Warning (`WARN` anywhere, or a `[stderr]` line).
    Warn,
    /// Error (`ERROR`, `panicked` or `PANIC` anywhere).
    Error,
}

/// Severity of a line: errors win over warnings, warnings over info.
pub open spec fn level_spec(line: Seq<char>) -> LogLevel {
    if contains_seq(line, "ERROR"@) || contains_seq(line, "panicked"@) || contains_seq(line, "PANIC"@) {
        LogLevel::Error
    } else if contains_seq(line, "WARN"@) || starts_with_seq(line, "[stderr]"@) {
        LogLevel::Warn
    } else {
        LogLevel::Info
    }
}

impl LogLevel {
    /// Severity of a line (see [`level_spec`]).
    pub fn from_line(line: &str) -> (r: LogLevel)
        ensures
            r == level_spec(line@),
    {
        if str_contains(line, "ERROR") || str_contains(line, "panicked") || str_contains(line, "PANIC") {
            LogLevel::Error
        } else if str_contains(line, "WARN") || str_starts_with(line, "[stderr]") {
            LogLevel::Warn
        } else {
            LogLevel::Info
        }
    }
}

/// One buffered line.
#[derive(Debug, Clone, PartialEq, Eq)]
pub struct LogEntry {
    /// Line text without newline.
    pub line: String,
    /// Severity.
    pub level: LogLevel,
}

/// The views of buffered lines.
pub open spec fn entries_view(v: Seq<LogEntry>) -> Seq<(Seq<char>, LogLevel)> {
    v.map_values(|e: LogEntry| (e.line@, e.level))
}

/// A bounded log buffer.
pub struct LogBuffer {
    entries: std::collections::VecDeque<LogEntry>,
    max_lines: usize,
    revision: u64,
    /// Status parsed from the pushed lines.
    pub status: RunStatus,
}

/// `n + 1` modulo 2^64.
pub open spec fn next_revision(n: u64) -> u64 {
    if n == u64::MAX {
        0
    } else {
        (n + 1) as u64
    }
}

/// Lines after pushing `e` into a buffer limited to `max` lines: the oldest
/// line goes when the limit is exceeded.
pub open spec fn push_bounded(lines: Seq<(Seq<char>, LogLevel)>, e: (Seq<char>, LogLevel), max: nat) -> Seq<
    (Seq<char>, LogLevel),
> {
    if lines.len() + 1 > max {
        lines.push(e).subrange(lines.len() + 1 - max, (lines.len() + 1) as int)
    } else {
        lines.push(e)
    }
}

/// What [`LogBuffer::changed_since`] gives on buffer `b`: the revision and a
/// copy of the lines when the revision differs from `cached`, else `None`.
pub open spec fn changed_since_spec(b: LogBuffer, cached: u64, r: Option<(u64, Vec<LogEntry>)>) -> bool {
    match r {
        Some((rev, lines)) => rev == b.rev() && rev != cached && entries_view(lines@) == b.lines(),
        None => b.rev() == cached,
    }
}

impl LogBuffer {
    /// The buffered lines, oldest first.
    pub closed spec fn lines(&self) -> Seq<(Seq<char>, LogLevel)> {
        entries_view(self.entries@)
    }

    /// The status parsed so far.
    pub closed spec fn status_view(&self) -> StatusView {
        self.status@
    }

    /// The line limit.
    pub closed spec fn max(&self) -> nat {
        self.max_lines as nat
    }

    /// The revision counter.
    pub closed spec fn rev(&self) -> u64 {
        self.revision
    }

    /// Buffer invariant: at least one line allowed, never more lines than allowed.
    pub closed spec fn wf(&self) -> bool {
        &&& self.max_lines >= 1
        &&& self.entries@.len() <= self.max_lines
    }

    /// An empty buffer keeping at most `max_lines` lines (at least 1).
    pub fn new(max_lines: usize) -> (r: LogBuffer)
        ensures
            r.wf(),
            r.lines().len() == 0,
            r.max() == if max_lines >= 1 {
                max_lines as nat
            } else {
                1
            },
            r.rev() == 0,
            r.status_view() == idle_status(),
    {
        let cap = if max_lines < 1024 {
            max_lines
        } else {
            1024
        };
        let r = LogBuffer {
            entries: std::collections::VecDeque::with_capacity(cap),
            max_lines: if max_lines >= 1 {
                max_lines
            } else {
                1
            },
            revision: 0,
            status: RunStatus::new(),
        };
        assert(r.lines() =~= Seq::empty());
        r
    }

    /// Pushes one line with its severity guessed from the text.
    pub fn push_line(&mut self, line: &str)
        requires
            old(self).wf(),
        ensures
            final(self).wf(),
            final(self).max() == old(self).max(),
            final(self).lines() == push_bounded(old(self).lines(), (line@, level_spec(line@)), old(self).max()),
            final(self).status_view() == observe_spec(old(self).status_view(), line@),
            final(self).rev() == next_revision(old(self).rev()),
    {
        let level = LogLevel::from_line(line);
        self.push_entry(line, level);
    }

    fn push_entry(&mut self, line: &str, level: LogLevel)
        requires
            old(self).wf(),
        ensures
            final(self).wf(),
            final(self).max() == old(self).max(),
            final(self).lines() == push_bounded(old(self).lines(), (line@, level), old(self).max()),
            final(self).status_view() == observe_spec(old(self).status_view(), line@),
            final(self).rev() == next_revision(old(self).rev()),
    {
        let ghost before = self.lines();
        let entry = LogEntry { line: owned(line), level };
        self.entries.push_back(entry);
        assert(self.lines() =~= before.push((line@, level)));
        if self.entries.len() > self.max_lines {
            let _ = self.entries.pop_front();
            assert(self.lines() =~= before.push((line@, level)).subrange(
                before.len() + 1 - self.max_lines,
                (before.len() + 1) as int,
            ));
        }
        self.status.observe(line);
        self.revision = self.revision.wrapping_add(1);
    }

    /// Pushes one line with an explicit severity (exit and system notices).
    pub fn push_line_with_level(&mut self, line: &str, level: LogLevel)
        requires
            old(self).wf(),
        ensures
            final(self).wf(),
            final(self).max() == old(self).max(),
            final(self).lines() == push_bounded(old(self).lines(), (line@, level), old(self).max()),
            final(self).status_view() == observe_spec(old(self).status_view(), line@),
            final(self).rev() == next_revision(old(self).rev()),
    {
        self.push_entry(line, level);
    }

    /// The revision counter.
    pub fn revision(&self) -> (r: u64)
        ensures
            r == self.rev(),
    {
        self.revision
    }

    /// The status parsed from the pushed lines.
    pub fn status(&self) -> (r: &RunStatus)
        ensures
            r@ == self.status_view(),
    {
        &self.status
    }

    /// A copy of the status parsed from the pushed lines.
    pub fn status_copy(&self) -> (r: RunStatus)
        ensures
            r@ == self.status_view(),
    {
        self.status.copy()
    }

    /// Number of buffered lines.
    pub fn len(&self) -> (r: usize)
        ensures
            r == self.lines().len(),
    {
        self.entries.len()
    }

    /// Whether no line is buffered.
    pub fn is_empty(&self) -> (r: bool)
        ensures
            r == (self.lines().len() == 0),
    {
        self.entries.len() == 0
    }

    /// The buffered lines, oldest first.
    pub fn entries(&self) -> (r: &std::collections::VecDeque<LogEntry>)
        ensures
            entries_view(r@) == self.lines(),
    {
        &self.entries
    }

    /// Drops every line and the status; the revision advances.
    pub fn clear(&mut self)
        requires
            old(self).wf(),
        ensures
            final(self).wf(),
            final(self).max() == old(self).max(),
            final(self).lines().len() == 0,
            final(self).status_view() == idle_status(),
            final(self).rev() == next_revision(old(self).rev()),
    {
        self.entries.clear();
        self.status = RunStatus::new();
        self.revision = self.revision.wrapping_add(1);
    }

    /// A copy of the buffered lines, oldest first.
    pub fn snapshot(&self) -> (r: Vec<LogEntry>)
        ensures
            entries_view(r@) == self.lines(),
    {
        let mut out: Vec<LogEntry> = Vec::new();
        let mut i: usize = 0;
        while i < self.entries.len()
            invariant
                i <= self.entries@.len(),
                entries_view(out@) == entries_view(self.entries@.take(i as int)),
            decreases self.entries@.len() - i,
        {
            let e = &self.entries[i];
            out.push(LogEntry { line: e.line.clone(), level: e.level });
            assert(entries_view(self.entries@.take(i + 1)) =~= entries_view(self.entries@.take(i as int)).push(
                (self.entries@[i as int].line@, self.entries@[i as int].level),
            ));
            i = i + 1;
        }
        assert(self.entries@.take(self.entries@.len() as int) =~= self.entries@);
        out
    }

    /// A copy of the lines with the current revision when the revision differs
    /// from `cached_revision`; `None` when nothing changed since then.
    pub fn changed_since(&self, cached_revision: u64) -> (r: Option<(u64, Vec<LogEntry>)>)
        ensures
            changed_since_spec(*self, cached_revision, r),
    {
        if self.revision == cached_revision {
            return None;
        }
        Some((self.revision, self.snapshot()))
    }

    /// Applies a batch of channel events in order: each line is pushed with a
    /// guessed severity, each exit becomes an exit notice line. Returns the
    /// number of lines recorded and the code of the first exit, if any.
    pub fn apply_events(&mut self, events: Vec<LogEvent>) -> (r: (usize, Option<Option<i32>>))
        requires
            old(self).wf(),
        ensures
            final(self).wf(),
            final(self).max() == old(self).max(),
            (final(self).lines(), final(self).status_view(), final(self).rev()) == apply_spec(
                old(self).lines(),
                old(self).status_view(),
                old(self).rev(),
                old(self).max(),
                events@,
            ),
            r.0 == events@.len(),
            r.1 == first_exit(events@),
    {
        let mut n: usize = 0;
        let mut exit: Option<Option<i32>> = None;
        let mut i: usize = 0;
        let ghost l0 = self.lines();
        let ghost s0 = self.status_view();
        let ghost r0 = self.rev();
        while i < events.len()
            invariant
                i <= events@.len(),
                self.wf(),
                self.max() == old(self).max(),
                l0 == old(self).lines(),
                s0 == old(self).status_view(),
                r0 == old(self).rev(),
                n == i,
                exit == first_exit(events@.take(i as int)),
                (self.lines(), self.status_view(), self.rev()) == apply_spec(l0, s0, r0, self.max(), events@.take(i as int)),
            decreases events@.len() - i,
        {
            assert(events@.take(i + 1).drop_last() =~= events@.take(i as int));
            match &events[i] {
                LogEvent::Line(l) => {
                    self.push_line(l.as_str());
                },
                LogEvent::Exit(code) => {
                    let (text, level) = exit_notice(*code);
                    self.push_line_with_level(text.as_str(), level);
                    if exit.is_none() {
                        exit = Some(*code);
                    }
                },
            }
            n = n + 1;
            i = i + 1;
        }
        assert(events@.take(events@.len() as int) =~= events@);
        (n, exit)
    }
}

impl Default for LogBuffer {
    fn default() -> (r: Self)
        ensures
            r.wf(),
            r.lines().len() == 0,
            r.max() == DEFAULT_MAX_LINES,
            r.rev() == 0,
            r.status_view() == idle_status(),
    {
        LogBuffer::new(DEFAULT_MAX_LINES)
    }
}

/// An event from a child process reader.
#[derive(Debug, Clone, PartialEq, Eq)]
pub enum LogEvent {
    /// One output line.
    Line(String),
    /// The process ended (exit code when known).
    Exit(Option<i32>),
}

/// std `Debug` text of an optional exit code.
pub open spec fn code_debug(code: Option<i32>) -> Seq<char> {
    match code {
        Some(c) => "Some("@ + int_dec(c as int) + ")"@,
        None => "None"@,
    }
}

/// The notice line and severity of an exit: success for code 0, error otherwise.
pub open spec fn exit_notice_spec(code: Option<i32>) -> (Seq<char>, LogLevel) {
    let (label, level) = match code {
        Some(c) => if c == 0 {
            ("exit=0 (成功)"@, LogLevel::Info)
        } else {
            ("exit=エラー"@, LogLevel::Error)
        },
        None => ("exit=不明"@, LogLevel::Error),
    };
    ("[studio] プロセス終了: "@ + label + " (code="@ + code_debug(code) + ")"@, level)
}

/// The notice line of an exit (see [`exit_notice_spec`]).
pub fn exit_notice(code: Option<i32>) -> (r: (String, LogLevel))
    ensures
        (r.0@, r.1) == exit_notice_spec(code),
{
    let mut s = String::from_str("[studio] プロセス終了: ");
    let level = match code {
        Some(c) => if c == 0 {
            s.append("exit=0 (成功)");
            LogLevel::Info
        } else {
            s.append("exit=エラー");
            LogLevel::Error
        },
        None => {
            s.append("exit=不明");
            LogLevel::Error
        },
    };
    s.append(" (code=");
    match code {
        Some(c) => {
            s.append("Some(");
            push_int(&mut s, c as i64);
            s.append(")");
        },
        None => s.append("None"),
    }
    s.append(")");
    (s, level)
}

/// The code of the first exit event.
pub open spec fn first_exit(events: Seq<LogEvent>) -> Option<Option<i32>>
    decreases events.len(),
{
    if events.len() == 0 {
        None
    } else {
        match first_exit(events.drop_last()) {
            Some(c) => Some(c),
            None => match events.last() {
                LogEvent::Exit(c) => Some(c),
                LogEvent::Line(_) => None,
            },
        }
    }
}

/// Buffer lines, status and revision after applying events in order.
pub open spec fn apply_spec(
    lines: Seq<(Seq<char>, LogLevel)>,
    status: StatusView,
    rev: u64,
    max: nat,
    events: Seq<LogEvent>,
) -> (Seq<(Seq<char>, LogLevel)>, StatusView, u64)
    decreases events.len(),
{
    if events.len() == 0 {
        (lines, status, rev)
    } else {
        let (l, s, r) = apply_spec(lines, status, rev, max, events.drop_last());
        let e = match events.last() {
            LogEvent::Line(t) => (t@, level_spec(t@)),
            LogEvent::Exit(c) => exit_notice_spec(c),
        };
        (push_bounded(l, e, max), observe_spec(s, e.0), next_revision(r))
    }
}

/// Declares `std::sync::Mutex` to the verifier.
#[verifier::external_type_specification]
#[verifier::external_body]
#[verifier::reject_recursive_types(T)]
pub struct ExMutex<T: ?Sized>(std::sync::Mutex<T>);

/// Declares `std::sync::mpsc::Receiver` to the verifier.
#[verifier::external_type_specification]
#[verifier::external_body]
#[verifier::reject_recursive_types(T)]
pub struct ExReceiver<T>(std::sync::mpsc::Receiver<T>);

/// std `Mutex::new(b)` (its content is not visible to the verifier).
#[verifier::external_body]
fn new_mutex(b: LogBuffer) -> std::sync::Mutex<LogBuffer> {
    std::sync::Mutex::new(b)
}

/// The events waiting in the channel now, in arrival order, without blocking
/// (std `Receiver::try_iter`). Nothing is stated of them: other threads send.
#[verifier::external_body]
fn pending_events(rx: &std::sync::mpsc::Receiver<LogEvent>) -> Vec<LogEvent> {
    rx.try_iter().collect()
}

impl LogBuffer {
    /// Takes the events waiting in `rx` and applies them (see
    /// [`LogBuffer::apply_events`]).
    fn take_pending(&mut self, rx: &std::sync::mpsc::Receiver<LogEvent>) -> (r: (usize, Option<Option<i32>>))
        requires
            old(self).wf(),
        ensures
            final(self).wf(),
            applied_batch(r),
    {
        let events = pending_events(rx);
        self.apply_events(events)
    }

    /// Takes the events waiting in `rx`, applies them and returns a copy of
    /// all lines.
    fn take_pending_snapshot(&mut self, rx: &std::sync::mpsc::Receiver<LogEvent>) -> (r: Vec<LogEntry>)
        requires
            old(self).wf(),
        ensures
            final(self).wf(),
            entries_view(r@) == final(self).lines(),
    {
        let _ = self.take_pending(rx);
        self.snapshot()
    }
}

/// A log buffer shared between the UI and reader threads.
#[derive(Clone)]
pub struct SharedLogBuffer {
    inner: std::sync::Arc<std::sync::Mutex<LogBuffer>>,
}

// The buffer behind the lock is only ever reached through the wrappers
// below, each of which runs one verified `LogBuffer` method on it. It is
// made by `LogBuffer::new` and every such method keeps it well formed, so
// their contracts claim that the buffer they ran on was well formed. No
// closure of a caller runs under the lock, so the lock is never taken twice
// by one thread.
impl SharedLogBuffer {
    /// A shared empty buffer keeping at most `max_lines` lines.
    pub fn new(max_lines: usize) -> Self {
        SharedLogBuffer { inner: std::sync::Arc::new(new_mutex(LogBuffer::new(max_lines))) }
    }

    /// std `Mutex::lock`, then [`LogBuffer::push_line`]; `None` when the lock
    /// is poisoned.
    #[verifier::external_body]
    fn locked_push_line(&self, line: &str) -> Option<()> {
        self.inner.lock().ok().map(|mut b| b.push_line(line))
    }

    /// std `Mutex::lock`, then [`LogBuffer::clear`]; `None` when the lock is
    /// poisoned.
    #[verifier::external_body]
    fn locked_clear(&self) -> Option<()> {
        self.inner.lock().ok().map(|mut b| b.clear())
    }

    /// std `Mutex::lock`, then [`LogBuffer::snapshot`] of the well-formed
    /// buffer behind the lock; `None` when the lock is poisoned.
    #[verifier::external_body]
    fn locked_snapshot(&self) -> (r: Option<Vec<LogEntry>>)
        ensures
            match r {
                Some(v) => exists|b: LogBuffer| b.wf() && entries_view(v@) == b.lines(),
                None => true,
            },
    {
        self.inner.lock().ok().map(|b| b.snapshot())
    }

    /// std `Mutex::lock`, then [`LogBuffer::revision`]; `None` when the lock
    /// is poisoned.
    #[verifier::external_body]
    fn locked_revision(&self) -> (r: Option<u64>)
        ensures
            match r {
                Some(n) => exists|b: LogBuffer| b.wf() && n == b.rev(),
                None => true,
            },
    {
        self.inner.lock().ok().map(|b| b.revision())
    }

    /// std `Mutex::lock`, then [`LogBuffer::status_copy`]; `None` when the
    /// lock is poisoned.
    #[verifier::external_body]
    fn locked_status(&self) -> (r: Option<RunStatus>)
        ensures
            match r {
                Some(st) => exists|b: LogBuffer| b.wf() && st@ == b.status_view(),
                None => true,
            },
    {
        self.inner.lock().ok().map(|b| b.status_copy())
    }

    /// std `Mutex::lock`, then [`LogBuffer::changed_since`]; `None` when the
    /// lock is poisoned.
    #[verifier::external_body]
    fn locked_changed_since(&self, cached_revision: u64) -> (r: Option<Option<(u64, Vec<LogEntry>)>>)
        ensures
            match r {
                Some(x) => exists|b: LogBuffer| b.wf() && changed_since_spec(b, cached_revision, x),
                None => true,
            },
    {
        self.inner.lock().ok().map(|b| b.changed_since(cached_revision))
    }

    /// std `Mutex::lock`, then [`LogBuffer::take_pending_snapshot`]: the lines
    /// of the well-formed buffer after the pending events were applied;
    /// `None` when the lock is poisoned.
    #[verifier::external_body]
    fn locked_take_pending_snapshot(&self, rx: &std::sync::mpsc::Receiver<LogEvent>) -> (r: Option<Vec<LogEntry>>)
        ensures
            match r {
                Some(v) => exists|b: LogBuffer| b.wf() && entries_view(v@) == b.lines(),
                None => true,
            },
    {
        self.inner.lock().ok().map(|mut b| b.take_pending_snapshot(rx))
    }

    /// std `Mutex::lock`, then [`LogBuffer::take_pending`]: the length and the
    /// first exit of the batch applied; `None` when the lock is poisoned.
    #[verifier::external_body]
    fn locked_take_pending(&self, rx: &std::sync::mpsc::Receiver<LogEvent>) -> (r: Option<DrainCount>)
        ensures
            match r {
                Some(x) => applied_batch(x),
                None => true,
            },
    {
        self.inner.lock().ok().map(|mut b| b.take_pending(rx))
    }

    /// Pushes one line (see [`LogBuffer::push_line`]); `false` when the lock
    /// is poisoned and nothing was pushed.
    pub fn push_line(&self, line: &str) -> (r: bool) {
        self.locked_push_line(line).is_some()
    }

    /// Drops every line and the status (see [`LogBuffer::clear`]); `false`
    /// when the lock is poisoned.
    pub fn clear(&self) -> (r: bool) {
        self.locked_clear().is_some()
    }

    /// A copy of all lines; an empty list when the lock is poisoned.
    pub fn snapshot(&self) -> (r: Vec<LogEntry>)
        ensures
            r@.len() == 0 || exists|b: LogBuffer| b.wf() && b.lines() == entries_view(r@),
    {
        match self.locked_snapshot() {
            Some(v) => v,
            None => Vec::new(),
        }
    }

    /// The revision counter; `None` when the lock is poisoned.
    pub fn revision(&self) -> (r: Option<u64>)
        ensures
            match r {
                Some(n) => exists|b: LogBuffer| b.wf() && n == b.rev(),
                None => true,
            },
    {
        self.locked_revision()
    }

    /// A copy of the status parsed so far; `None` when the lock is poisoned.
    pub fn status(&self) -> (r: Option<RunStatus>)
        ensures
            match r {
                Some(st) => exists|b: LogBuffer| b.wf() && st@ == b.status_view(),
                None => true,
            },
    {
        self.locked_status()
    }

    /// A copy of the lines and the revision when the buffer changed since
    /// `cached_revision` (see [`LogBuffer::changed_since`]); `None` when it did
    /// not, or when the lock is poisoned.
    pub fn changed_entries(&self, cached_revision: u64) -> (r: Option<(u64, Vec<LogEntry>)>)
        ensures
            match r {
                Some((rev, lines)) => rev != cached_revision && exists|b: LogBuffer|
                    b.wf() && b.rev() == rev && b.lines() == entries_view(lines@),
                None => true,
            },
    {
        match self.locked_changed_since(cached_revision) {
            Some(x) => x,
            None => None,
        }
    }

    /// Under one lock: takes the events waiting in `rx` and applies them
    /// (see [`LogBuffer::apply_events`]), then returns a copy of all lines.
    /// An empty list when the lock is poisoned.
    pub fn drain(&self, rx: &std::sync::mpsc::Receiver<LogEvent>) -> (r: Vec<LogEntry>)
        ensures
            r@.len() == 0 || exists|b: LogBuffer| b.wf() && b.lines() == entries_view(r@),
    {
        match self.locked_take_pending_snapshot(rx) {
            Some(x) => x,
            None => Vec::new(),
        }
    }
}

/// Lines recorded from a batch of events, and the code of its first exit.
pub type DrainCount = (usize, Option<Option<i32>>);

/// What applying some batch of events reports: its length and its first exit.
pub open spec fn applied_batch(r: (usize, Option<Option<i32>>)) -> bool {
    exists|events: Seq<LogEvent>| r.0 == events.len() && r.1 == first_exit(events)
}

/// Under one lock: takes the events waiting in `rx` and applies them to the
/// shared buffer (see [`LogBuffer::apply_events`]). Returns the number of lines
/// recorded and the code of the first exit among the events; `(0, None)` when
/// the lock is poisoned (the events then stay in the channel).
pub fn drain_channel_into(log: &SharedLogBuffer, rx: &std::sync::mpsc::Receiver<LogEvent>) -> (r: DrainCount)
    ensures
        (r.0 == 0 && r.1 is None) || applied_batch(r),
{
    match log.locked_take_pending(rx) {
        Some(x) => x,
        None => (0, None),
    }
}

/// A buffer never holds more lines than its limit and keeps the newest ones:
/// after a push the last line is the pushed one.
pub proof fn law_push_keeps_newest(lines: Seq<(Seq<char>, LogLevel)>, e: (Seq<char>, LogLevel), max: nat)
    requires
        max >= 1,
        lines.len() <= max,
    ensures
        push_bounded(lines, e, max).len() <= max,
        push_bounded(lines, e, max).len() > 0,
        push_bounded(lines, e, max).last() == e,
        lines.len() < max ==> push_bounded(lines, e, max) == lines.push(e),
{
}

} // verus!
