//! Pipeline run history: records, the bounded newest-first store, the
//! location of the history file and its JSON-lines framing.
//!
//! Reading and writing the file and turning JSON into records are outside
//! work; the store keeps its records in memory and decides what is kept.
use vstd::prelude::*;
use vstd::string::*;

use crate::paths::{joined_path, path_join};
use crate::log_status::slice_chars;
use crate::text::{chars_of, is_blank, owned, push_char, string_of, trim_chars, trim_seq, views};

verus! {

/// Default number of records kept.
pub const DEFAULT_MAX_RECORDS: usize = 50;

/// Most log lines kept per record.
pub const LOG_TAIL_MAX_LINES: usize = 20;

/// How a run ended.
#[derive(Debug, Clone, Copy, PartialEq, Eq)]
pub enum RunOutcome {
    /// Exit code 0.
    Success,
    /// Non-zero exit code.
    Failed,
    /// Stopped by the user.
    Cancelled,
}

/// One pipeline run.
#[derive(Debug, Clone, PartialEq, Eq)]
pub struct RunRecord {
    /// Start time (UNIX seconds).
    pub started_at_unix: u64,
    /// Strategy name.
    pub strategy: String,
    /// How it ended.
    pub outcome: RunOutcome,
    /// Exit code when known.
    pub exit_code: Option<i32>,
    /// The last log lines (at most [`LOG_TAIL_MAX_LINES`]).
    pub log_tail: Vec<String>,
}

/// The last `LOG_TAIL_MAX_LINES` of `lines`.
pub open spec fn tail_spec(lines: Seq<String>) -> Seq<String> {
    if lines.len() > LOG_TAIL_MAX_LINES {
        lines.skip(lines.len() - LOG_TAIL_MAX_LINES)
    } else {
        lines
    }
}

/// Keeps the last [`LOG_TAIL_MAX_LINES`] lines.
pub fn truncate_tail(lines: Vec<String>) -> (out: Vec<String>)
    ensures
        out@ == tail_spec(lines@),
{
    if lines.len() > LOG_TAIL_MAX_LINES {
        let start = lines.len() - LOG_TAIL_MAX_LINES;
        let mut out: Vec<String> = Vec::new();
        let mut i = start;
        while i < lines.len()
            invariant
                start <= i <= lines.len(),
                start == lines@.len() - LOG_TAIL_MAX_LINES,
                out@ == lines@.subrange(start as int, i as int),
            decreases lines.len() - i,
        {
            out.push(lines[i].clone());
            assert(lines@.subrange(start as int, i + 1) =~= lines@.subrange(start as int, i as int).push(
                lines@[i as int],
            ));
            i = i + 1;
        }
        assert(out@ =~= lines@.skip(start as int));
        out
    } else {
        lines
    }
}

impl RunRecord {
    /// A record whose log tail is cut to the last [`LOG_TAIL_MAX_LINES`] lines.
    pub fn new(
        started_at_unix: u64,
        strategy: &str,
        outcome: RunOutcome,
        exit_code: Option<i32>,
        log_tail: Vec<String>,
    ) -> (r: RunRecord)
        ensures
            r.started_at_unix == started_at_unix,
            r.strategy@ == strategy@,
            r.outcome == outcome,
            r.exit_code == exit_code,
            r.log_tail@ == tail_spec(log_tail@),
    {
        RunRecord {
            started_at_unix,
            strategy: owned(strategy),
            outcome,
            exit_code,
            log_tail: truncate_tail(log_tail),
        }
    }
}

/// A record as plain values: start time, strategy, outcome, exit code and
/// log tail.
pub open spec fn record_view(r: RunRecord) -> (u64, Seq<char>, RunOutcome, Option<i32>, Seq<Seq<char>>) {
    (r.started_at_unix, r.strategy@, r.outcome, r.exit_code, views(r.log_tail@))
}

/// The plain values of a list of records.
pub open spec fn records_view(rs: Seq<RunRecord>) -> Seq<(u64, Seq<char>, RunOutcome, Option<i32>, Seq<Seq<char>>)> {
    rs.map_values(|r: RunRecord| record_view(r))
}

fn copy_lines(lines: &Vec<String>) -> (out: Vec<String>)
    ensures
        views(out@) == views(lines@),
{
    let mut out: Vec<String> = Vec::new();
    let mut i: usize = 0;
    while i < lines.len()
        invariant
            i <= lines@.len(),
            views(out@) == views(lines@.take(i as int)),
        decreases lines@.len() - i,
    {
        out.push(lines[i].clone());
        assert(views(lines@.take(i + 1)) =~= views(lines@.take(i as int)).push(lines@[i as int]@));
        i = i + 1;
    }
    assert(lines@.take(lines@.len() as int) =~= lines@);
    out
}

/// A copy of a record.
pub fn copy_record(r: &RunRecord) -> (c: RunRecord)
    ensures
        record_view(c) == record_view(*r),
{
    RunRecord {
        started_at_unix: r.started_at_unix,
        strategy: r.strategy.clone(),
        outcome: r.outcome,
        exit_code: r.exit_code,
        log_tail: copy_lines(&r.log_tail),
    }
}

/// A copy of a list of records.
pub fn copy_records(rs: &[RunRecord]) -> (out: Vec<RunRecord>)
    ensures
        out@.len() == rs@.len(),
        records_view(out@) == records_view(rs@),
{
    let mut out: Vec<RunRecord> = Vec::new();
    let mut i: usize = 0;
    while i < rs.len()
        invariant
            i <= rs@.len(),
            out@.len() == i,
            records_view(out@) == records_view(rs@.take(i as int)),
        decreases rs@.len() - i,
    {
        out.push(copy_record(&rs[i]));
        assert(records_view(rs@.take(i + 1)) =~= records_view(rs@.take(i as int)).push(record_view(rs@[i as int])));
        i = i + 1;
    }
    assert(rs@.take(rs@.len() as int) =~= rs@);
    out
}

/// The first `max` records (the newest ones).
pub open spec fn keep_newest(records: Seq<RunRecord>, max: nat) -> Seq<RunRecord> {
    if records.len() > max {
        records.take(max as int)
    } else {
        records
    }
}

fn truncate_oldest(records: &mut Vec<RunRecord>, max_records: usize)
    ensures
        final(records)@ == keep_newest(old(records)@, max_records as nat),
{
    if records.len() > max_records {
        records.truncate(max_records);
    }
}

/// The run history: records newest first, at most `max_records` of them.
#[derive(Debug)]
pub struct RunHistory {
    path: String,
    max_records: usize,
    records: Vec<RunRecord>,
}

impl RunHistory {
    /// The records, newest first.
    pub closed spec fn all(&self) -> Seq<RunRecord> {
        self.records@
    }

    /// The record limit.
    pub closed spec fn limit(&self) -> nat {
        self.max_records as nat
    }

    /// The history file path.
    pub closed spec fn file(&self) -> Seq<char> {
        self.path@
    }

    /// A history at `path` holding the records read from it (newest first),
    /// cut to the newest `max_records`.
    pub fn open(path: &str, max_records: usize, loaded: Vec<RunRecord>) -> (h: RunHistory)
        ensures
            h.file() == path@,
            h.limit() == max_records,
            h.all() == keep_newest(loaded@, max_records as nat),
    {
        let mut records = loaded;
        truncate_oldest(&mut records, max_records);
        RunHistory { path: owned(path), max_records, records }
    }

    /// Adds a record as the newest one; the oldest records beyond the limit go.
    pub fn append(&mut self, record: RunRecord)
        ensures
            final(self).file() == old(self).file(),
            final(self).limit() == old(self).limit(),
            final(self).all() == keep_newest(seq![record] + old(self).all(), old(self).limit()),
    {
        self.records.insert(0, record);
        truncate_oldest(&mut self.records, self.max_records);
        assert(seq![record] + old(self).all() =~= old(self).all().insert(0, record));
    }

    /// The records, newest first.
    pub fn records(&self) -> (r: &[RunRecord])
        ensures
            r@ == self.all(),
    {
        self.records.as_slice()
    }

    /// The history file path.
    pub fn path(&self) -> (r: &str)
        ensures
            r@ == self.file(),
    {
        self.path.as_str()
    }
}

impl RunHistory {
    /// The history file path (see [`history_path_spec`]): the override
    /// `explicit` when set, else under the configuration directory located by
    /// `appdata`, `xdg` and `home` (the values of `APPDATA`, `XDG_CONFIG_HOME`
    /// and `HOME`).
    pub fn history_path(
        explicit: Option<&str>,
        appdata: Option<&str>,
        xdg: Option<&str>,
        home: Option<&str>,
    ) -> (r: String)
        ensures
            r@ == history_path_spec(opt_text(explicit), opt_text(appdata), opt_text(xdg), opt_text(home)),
    {
        history_path(explicit, appdata, xdg, home)
    }

    /// A history at the default path keeping [`DEFAULT_MAX_RECORDS`] records,
    /// holding the records read from that path (newest first).
    pub fn open_default(
        explicit: Option<&str>,
        appdata: Option<&str>,
        xdg: Option<&str>,
        home: Option<&str>,
        loaded: Vec<RunRecord>,
    ) -> (h: RunHistory)
        ensures
            h.file() == history_path_spec(opt_text(explicit), opt_text(appdata), opt_text(xdg), opt_text(home)),
            h.limit() == DEFAULT_MAX_RECORDS,
            h.all() == keep_newest(loaded@, DEFAULT_MAX_RECORDS as nat),
    {
        let path = history_path(explicit, appdata, xdg, home);
        RunHistory::open(path.as_str(), DEFAULT_MAX_RECORDS, loaded)
    }
}

/// Appending to a history within its limit: the limit is never exceeded, the
/// appended record is the newest one kept (when the limit allows any record),
/// the records kept before it follow in their order, and a record is dropped
/// only when the limit is reached (the oldest one).
pub proof fn law_append_bounded(records: Seq<RunRecord>, record: RunRecord, max: nat)
    requires
        max >= 1,
        records.len() <= max,
    ensures
        keep_newest(seq![record] + records, max).len() <= max,
        keep_newest(seq![record] + records, max)[0] == record,
        forall|i: int|
            1 <= i < keep_newest(seq![record] + records, max).len() ==> #[trigger] keep_newest(
                seq![record] + records,
                max,
            )[i] == records[i - 1],
        records.len() < max ==> keep_newest(seq![record] + records, max).len() == records.len() + 1,
        records.len() == max ==> keep_newest(seq![record] + records, max).len() == max,
{
}

// ---------------------------------------------------------------------------
// History file location
// ---------------------------------------------------------------------------

/// The non-blank value of an optional setting.
pub open spec fn set_value(v: Option<Seq<char>>) -> Option<Seq<char>> {
    match v {
        Some(s) => if trim_seq(s).len() > 0 {
            Some(s)
        } else {
            None
        },
        None => None,
    }
}

/// The configuration directory: `APPDATA`, else `XDG_CONFIG_HOME`, else
/// `$HOME/.config`, else `.` (blank values count as unset).
pub open spec fn config_dir_spec(
    appdata: Option<Seq<char>>,
    xdg: Option<Seq<char>>,
    home: Option<Seq<char>>,
) -> Seq<char> {
    match set_value(appdata) {
        Some(a) => a,
        None => match set_value(xdg) {
            Some(x) => x,
            None => match set_value(home) {
                Some(h) => joined_path(h, ".config"@),
                None => "."@,
            },
        },
    }
}

/// The history file: the explicit override when set, otherwise
/// `<config dir>/anaden-studio/history.jsonl`.
pub open spec fn history_path_spec(
    explicit: Option<Seq<char>>,
    appdata: Option<Seq<char>>,
    xdg: Option<Seq<char>>,
    home: Option<Seq<char>>,
) -> Seq<char> {
    match set_value(explicit) {
        Some(e) => e,
        None => joined_path(joined_path(config_dir_spec(appdata, xdg, home), "anaden-studio"@), "history.jsonl"@),
    }
}

/// The text of an optional string.
pub open spec fn opt_text(v: Option<&str>) -> Option<Seq<char>> {
    match v {
        Some(s) => Some(s@),
        None => None,
    }
}

/// The non-blank value of an optional setting, as an owned string.
fn setting(v: Option<&str>) -> (r: Option<String>)
    ensures
        match r {
            Some(s) => set_value(opt_text(v)) == Some(s@),
            None => set_value(opt_text(v)) is None,
        },
{
    match v {
        Some(s) => if is_blank(s) {
            None
        } else {
            Some(owned(s))
        },
        None => None,
    }
}

/// The configuration directory (see [`config_dir_spec`]).
pub fn config_dir(appdata: Option<&str>, xdg: Option<&str>, home: Option<&str>) -> (r: String)
    ensures
        r@ == config_dir_spec(
            opt_text(appdata),
            opt_text(xdg),
            opt_text(home),
        ),
{
    if let Some(a) = setting(appdata) {
        return a;
    }
    if let Some(x) = setting(xdg) {
        return x;
    }
    if let Some(h) = setting(home) {
        return path_join(h.as_str(), ".config");
    }
    owned(".")
}

/// The history file path from the explicit override and the environment
/// values that locate the configuration directory (see [`history_path_spec`]).
pub fn history_path(
    explicit: Option<&str>,
    appdata: Option<&str>,
    xdg: Option<&str>,
    home: Option<&str>,
) -> (r: String)
    ensures
        r@ == history_path_spec(
            opt_text(explicit),
            opt_text(appdata),
            opt_text(xdg),
            opt_text(home),
        ),
{
    if let Some(e) = setting(explicit) {
        return e;
    }
    let dir = config_dir(appdata, xdg, home);
    let sub = path_join(dir.as_str(), "anaden-studio");
    path_join(sub.as_str(), "history.jsonl")
}

// ---------------------------------------------------------------------------
// JSON-lines framing of the history file
// ---------------------------------------------------------------------------

/// The index of the first line feed at or after `i` (the length when none).
pub open spec fn line_end(s: Seq<char>, i: int) -> int
    decreases s.len() - i,
{
    if i < 0 || i >= s.len() {
        s.len() as int
    } else if s[i] == '\n' {
        i
    } else {
        line_end(s, i + 1)
    }
}

/// A line ends at or after where it starts, at a line feed or at the end.
pub proof fn lemma_line_end(s: Seq<char>, i: int)
    requires
        0 <= i <= s.len(),
    ensures
        i <= line_end(s, i) <= s.len(),
        forall|k: int| i <= k < line_end(s, i) ==> s[k] != '\n',
        line_end(s, i) < s.len() ==> s[line_end(s, i)] == '\n',
    decreases s.len() - i,
{
    if i < s.len() && s[i] != '\n' {
        lemma_line_end(s, i + 1);
    }
}

proof fn lemma_line_end_at(s: Seq<char>, i: int, j: int)
    requires
        0 <= i <= j <= s.len(),
        forall|k: int| i <= k < j ==> s[k] != '\n',
        j == s.len() || s[j] == '\n',
    ensures
        line_end(s, i) == j,
    decreases j - i,
{
    if i < j {
        lemma_line_end_at(s, i + 1, j);
    }
}

/// A line without its trailing carriage return.
pub open spec fn strip_cr(l: Seq<char>) -> Seq<char> {
    if l.len() > 0 && l.last() == '\r' {
        l.drop_last()
    } else {
        l
    }
}

/// Where the next line starts after a line ending at `j`.
pub open spec fn after_line(s: Seq<char>, j: int) -> int {
    if j < s.len() {
        j + 1
    } else {
        s.len() as int
    }
}

/// The non-blank lines of `s` from position `i` on, each without its line
/// feed and trailing carriage return (std `str::lines`, blank lines dropped).
pub open spec fn record_lines_from(s: Seq<char>, i: int) -> Seq<Seq<char>>
    decreases s.len() - i,
{
    if i < 0 || i >= s.len() {
        Seq::empty()
    } else {
        proof {
            lemma_line_end(s, i);
        }
        let j = line_end(s, i);
        let l = strip_cr(s.subrange(i, j));
        (if trim_seq(l).len() > 0 {
            seq![l]
        } else {
            Seq::empty()
        }) + record_lines_from(s, after_line(s, j))
    }
}

/// The non-blank lines of a history file's content, in order: one record
/// per line.
pub fn record_lines(content: &str) -> (out: Vec<String>)
    ensures
        views(out@) == record_lines_from(content@, 0),
{
    let cs = chars_of(content);
    let n = cs.len();
    let mut out: Vec<String> = Vec::new();
    let mut i: usize = 0;
    assert(views(out@) =~= Seq::<Seq<char>>::empty());
    while i < n
        invariant
            n == cs@.len(),
            cs@ == content@,
            i <= n,
            views(out@) + record_lines_from(cs@, i as int) == record_lines_from(cs@, 0),
        decreases n - i,
    {
        let mut j = i;
        while j < n && cs[j] != '\n'
            invariant
                i <= j <= n,
                n == cs@.len(),
                forall|k: int| i <= k < j ==> cs@[k] != '\n',
            decreases n - j,
        {
            j = j + 1;
        }
        proof {
            lemma_line_end_at(cs@, i as int, j as int);
        }
        let mut line = slice_chars(&cs, i, j);
        if line.len() > 0 && line[line.len() - 1] == '\r' {
            line.pop();
            assert(line@ =~= cs@.subrange(i as int, j as int).drop_last());
        }
        let ghost l = strip_cr(cs@.subrange(i as int, j as int));
        assert(line@ == l);
        let t = trim_chars(&line);
        let ghost before = views(out@);
        let ghost rest = record_lines_from(cs@, after_line(cs@, j as int));
        assert(record_lines_from(cs@, i as int) == (if trim_seq(l).len() > 0 {
            seq![l]
        } else {
            Seq::empty()
        }) + rest);
        if t.len() > 0 {
            out.push(string_of(&line));
            assert(views(out@) =~= before.push(l));
            assert(before + (seq![l] + rest) =~= before.push(l) + rest);
        } else {
            assert(before + (Seq::<Seq<char>>::empty() + rest) =~= before + rest);
        }
        i = if j < n {
            j + 1
        } else {
            n
        };
    }
    assert(views(out@) + record_lines_from(cs@, i as int) == views(out@) + Seq::<Seq<char>>::empty());
    assert(views(out@) + Seq::<Seq<char>>::empty() =~= views(out@));
    out
}

/// The file content of records already turned into lines: each line
/// followed by a line feed, in order.
pub open spec fn framed(lines: Seq<Seq<char>>) -> Seq<char>
    decreases lines.len(),
{
    if lines.len() == 0 {
        Seq::empty()
    } else {
        lines[0] + seq!['\n'] + framed(lines.drop_first())
    }
}

proof fn lemma_framed_push(lines: Seq<Seq<char>>, x: Seq<char>)
    ensures
        framed(lines.push(x)) == framed(lines) + x + seq!['\n'],
    decreases lines.len(),
{
    if lines.len() > 0 {
        assert(lines.push(x).drop_first() =~= lines.drop_first().push(x));
        lemma_framed_push(lines.drop_first(), x);
        assert(lines.push(x)[0] == lines[0]);
        let a = lines[0] + seq!['\n'];
        let f = framed(lines.drop_first());
        assert(framed(lines) == a + f);
        assert(framed(lines.push(x)) == a + framed(lines.drop_first().push(x)));
        assert(a + (f + x + seq!['\n']) =~= a + f + x + seq!['\n']);
    } else {
        assert(lines.push(x).drop_first() =~= Seq::<Seq<char>>::empty());
        assert(framed(lines.push(x).drop_first()) == Seq::<char>::empty());
        assert(framed(lines) == Seq::<char>::empty());
        assert(lines.push(x)[0] == x);
        assert(x + seq!['\n'] + Seq::<char>::empty() =~= Seq::<char>::empty() + x + seq!['\n']);
    }
}

/// The file content of records already turned into lines (see [`framed`]).
pub fn frame_lines(lines: &Vec<String>) -> (out: String)
    ensures
        out@ == framed(views(lines@)),
{
    let mut out = String::new();
    let mut i: usize = 0;
    assert(views(lines@.take(0)) =~= Seq::<Seq<char>>::empty());
    while i < lines.len()
        invariant
            i <= lines@.len(),
            out@ == framed(views(lines@.take(i as int))),
        decreases lines@.len() - i,
    {
        out.append(lines[i].as_str());
        push_char(&mut out, '\n');
        proof {
            assert(views(lines@.take(i + 1)) =~= views(lines@.take(i as int)).push(lines@[i as int]@));
            lemma_framed_push(views(lines@.take(i as int)), lines@[i as int]@);
        }
        i = i + 1;
    }
    assert(lines@.take(lines@.len() as int) =~= lines@);
    out
}

proof fn lemma_line_end_shift(u: Seq<char>, t: Seq<char>, k: int)
    requires
        0 <= k <= t.len(),
    ensures
        line_end(u + t, u.len() + k) == u.len() + line_end(t, k),
    decreases t.len() - k,
{
    if k < t.len() {
        assert((u + t)[u.len() + k] == t[k]);
        if t[k] != '\n' {
            lemma_line_end_shift(u, t, k + 1);
        }
    }
}

proof fn lemma_record_lines_shift(u: Seq<char>, t: Seq<char>, k: int)
    requires
        0 <= k <= t.len(),
    ensures
        record_lines_from(u + t, u.len() + k) == record_lines_from(t, k),
    decreases t.len() - k,
{
    if k < t.len() {
        lemma_line_end_shift(u, t, k);
        lemma_line_end(t, k);
        let j = line_end(t, k);
        assert((u + t).subrange(u.len() + k, u.len() + j) =~= t.subrange(k, j));
        assert(after_line(u + t, u.len() + j) == u.len() + after_line(t, j));
        lemma_record_lines_shift(u, t, after_line(t, j));
    }
}

/// Reading back what was written: the content framed from non-blank lines
/// holding no line feed or carriage return gives exactly those lines again.
pub proof fn law_frame_then_read(lines: Seq<Seq<char>>)
    requires
        forall|k: int| 0 <= k < lines.len() ==> #[trigger] trim_seq(lines[k]).len() > 0,
        forall|k: int, c: int|
            0 <= k < lines.len() && 0 <= c < lines[k].len() ==> #[trigger] lines[k][c] != '\n' && lines[k][c]
                != '\r',
    ensures
        record_lines_from(framed(lines), 0) == lines,
    decreases lines.len(),
{
    if lines.len() == 0 {
        assert(record_lines_from(framed(lines), 0) =~= lines);
    } else {
        let x = lines[0];
        let rest = lines.drop_first();
        assert forall|k: int| 0 <= k < rest.len() implies #[trigger] trim_seq(rest[k]).len() > 0 by {
            assert(rest[k] == lines[k + 1]);
        }
        assert forall|k: int, c: int| 0 <= k < rest.len() && 0 <= c < rest[k].len() implies #[trigger] rest[k][c]
            != '\n' && rest[k][c] != '\r' by {
            assert(rest[k] == lines[k + 1]);
        }
        law_frame_then_read(rest);
        let head = x + seq!['\n'];
        let t = framed(rest);
        let s = head + t;
        assert(framed(lines) == s);
        assert forall|c: int| 0 <= c < x.len() implies s[c] != '\n' by {
            assert(s[c] == x[c]);
            assert(lines[0][c] != '\n');
        }
        assert(s[x.len() as int] == '\n');
        lemma_line_end_at(s, 0, x.len() as int);
        assert(s.subrange(0, x.len() as int) =~= x);
        if x.len() > 0 {
            assert(x.last() == lines[0][x.len() - 1]);
        }
        assert(strip_cr(x) == x);
        assert(trim_seq(lines[0]).len() > 0);
        lemma_record_lines_shift(head, t, 0);
        assert(after_line(s, x.len() as int) == head.len());
        assert(record_lines_from(s, 0) == seq![x] + record_lines_from(t, 0));
        assert(seq![x] + rest =~= lines);
    }
}

} // verus!
