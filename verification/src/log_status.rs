//! Status trackers updated line by line from a pipeline's log output.
//!
//! - [`RunStatus`]: running flag, goal, cycle count and stop reason parsed
//!   from the CLI's fixed output lines.
//! - [`AutoScrollFollow`]: whether the log view sticks to its bottom, and how
//!   many new lines have not been scrolled to yet.
use vstd::prelude::*;
use vstd::string::*;

use crate::text::{
    chars_of, dec, find_from, occurs_at, parse_u64, parse_u64_spec, push_dec, seq_eq, string_of, trim_chars,
    trim_seq, contains_seq, vec_contains,
};

verus! {

/// Follows the bottom of a log view.
#[derive(Debug, Clone, PartialEq, Eq)]
pub struct AutoScrollFollow {
    enabled: bool,
    pending: usize,
}

impl Default for AutoScrollFollow {
    fn default() -> (r: Self)
        ensures
            r.enabled() && r.pending() == 0,
    {
        AutoScrollFollow { enabled: true, pending: 0 }
    }
}

impl AutoScrollFollow {
    /// Whether following is on.
    pub closed spec fn enabled(self) -> bool {
        self.enabled
    }

    /// Lines not yet scrolled to.
    pub closed spec fn pending(self) -> nat {
        self.pending as nat
    }

    /// Turns following on or off. Either way the pending count is dropped:
    /// turned on, the view sticks to its bottom at once; turned off, new
    /// lines are no longer counted.
    pub fn set_enabled(&mut self, enabled: bool)
        ensures
            final(self).enabled() == enabled,
            final(self).pending() == 0,
    {
        self.enabled = enabled;
        self.pending = 0;
    }

    /// Whether following is on.
    pub fn is_enabled(&self) -> (r: bool)
        ensures
            r == self.enabled(),
    {
        self.enabled
    }

    /// Whether the view should stick to its bottom (exactly when following).
    pub fn should_stick_to_bottom(&self) -> (r: bool)
        ensures
            r == self.enabled(),
    {
        self.enabled
    }

    /// Counts `n` new lines while following (saturating); ignored otherwise.
    pub fn observe_new_lines(&mut self, n: usize)
        ensures
            final(self).enabled() == old(self).enabled(),
            final(self).pending() == if old(self).enabled() {
                if old(self).pending() + n > usize::MAX {
                    usize::MAX as nat
                } else {
                    (old(self).pending() + n) as nat
                }
            } else {
                old(self).pending()
            },
    {
        if self.enabled {
            self.pending = self.pending.saturating_add(n);
        }
    }

    /// The view reached its bottom: nothing is pending any more.
    pub fn on_scrolled_to_bottom(&mut self)
        ensures
            final(self).enabled() == old(self).enabled(),
            final(self).pending() == 0,
    {
        self.pending = 0;
    }

    /// Lines not yet scrolled to.
    pub fn pending_lines(&self) -> (r: usize)
        ensures
            r == self.pending(),
    {
        self.pending
    }
}

/// The state of a pipeline run as seen in its log.
#[derive(Debug, Clone, PartialEq, Eq)]
pub struct RunStatus {
    /// A start line was seen and no stop line since.
    pub running: bool,
    /// The goal named on the start line (`(none)` means no goal).
    pub goal: Option<String>,
    /// The cycle count of the result line.
    pub iterations: Option<u64>,
    /// The stop reason label.
    pub stop_reason: Option<String>,
}

impl Default for RunStatus {
    fn default() -> (r: Self)
        ensures
            r@ == idle_status(),
    {
        RunStatus { running: false, goal: None, iterations: None, stop_reason: None }
    }
}

/// Abstract run status.
pub struct StatusView {
    pub running: bool,
    pub goal: Option<Seq<char>>,
    pub iterations: Option<u64>,
    pub stop_reason: Option<Seq<char>>,
}

impl View for RunStatus {
    type V = StatusView;

    open spec fn view(&self) -> StatusView {
        StatusView {
            running: self.running,
            goal: match self.goal {
                Some(g) => Some(g@),
                None => None,
            },
            iterations: self.iterations,
            stop_reason: match self.stop_reason {
                Some(r) => Some(r@),
                None => None,
            },
        }
    }
}

/// Nothing observed yet.
pub open spec fn idle_status() -> StatusView {
    StatusView { running: false, goal: None, iterations: None, stop_reason: None }
}

/// `i` is the first occurrence of `p` in `h`.
pub open spec fn is_first_occ(h: Seq<char>, p: Seq<char>, i: int) -> bool {
    occurs_at(h, p, i) && forall|j: int| 0 <= j < i ==> !occurs_at(h, p, j)
}

/// The text after the first occurrence of `p` (std `split_once(p)`'s right part).
pub open spec fn after_first_occ(h: Seq<char>, p: Seq<char>) -> Option<Seq<char>> {
    if exists|i: int| is_first_occ(h, p, i) {
        let i = choose|i: int| is_first_occ(h, p, i);
        Some(h.subrange(i + p.len(), h.len() as int))
    } else {
        None
    }
}

/// The second piece of splitting `h` at `p` (std `split(p).nth(1)`): the text
/// between the first and the second occurrence, or to the end.
pub open spec fn second_piece(h: Seq<char>, p: Seq<char>) -> Option<Seq<char>> {
    match after_first_occ(h, p) {
        Some(r) => match after_first_occ_index(r, p) {
            Some(j) => Some(r.subrange(0, j)),
            None => Some(r),
        },
        None => None,
    }
}

/// Index of the first occurrence of `p` in `h`.
pub open spec fn after_first_occ_index(h: Seq<char>, p: Seq<char>) -> Option<int> {
    if exists|i: int| is_first_occ(h, p, i) {
        Some(choose|i: int| is_first_occ(h, p, i))
    } else {
        None
    }
}

/// The goal of a start line: the trimmed second piece at `goal=`, unless it is `(none)`.
pub open spec fn start_goal(line: Seq<char>) -> Option<Seq<char>> {
    match second_piece(line, "goal="@) {
        Some(rest) => if trim_seq(rest) == "(none)"@ {
            None
        } else {
            Some(trim_seq(rest))
        },
        None => None,
    }
}

/// The status after observing one log line:
/// - a line containing `run_loop 開始` starts a run (goal from `goal=`, cycle
///   count and stop reason cleared);
/// - otherwise a line with `サイクル数:` sets the cycle count from the trimmed
///   rest (a number, or unknown);
/// - otherwise a line with `停止理由:` sets the stop reason and ends the run;
/// - any other line changes nothing.
pub open spec fn observe_spec(s: StatusView, line: Seq<char>) -> StatusView {
    if contains_seq(line, "run_loop 開始"@) {
        StatusView { running: true, goal: start_goal(line), iterations: None, stop_reason: None }
    } else {
        match after_first_occ(line, "サイクル数:"@) {
            Some(rest) => StatusView { iterations: parse_u64_spec(trim_seq(rest)), ..s },
            None => match after_first_occ(line, "停止理由:"@) {
                Some(rest) => StatusView { running: false, stop_reason: Some(trim_seq(rest)), ..s },
                None => s,
            },
        }
    }
}

/// `Some(v@.subrange(a, b))` as a vector.
pub fn slice_chars(v: &Vec<char>, a: usize, b: usize) -> (out: Vec<char>)
    requires
        a <= b <= v@.len(),
    ensures
        out@ == v@.subrange(a as int, b as int),
{
    let mut out: Vec<char> = Vec::new();
    let mut k = a;
    while k < b
        invariant
            a <= k <= b <= v@.len(),
            out@ == v@.subrange(a as int, k as int),
        decreases b - k,
    {
        out.push(v[k]);
        assert(v@.subrange(a as int, k + 1) =~= v@.subrange(a as int, k as int).push(v@[k as int]));
        k = k + 1;
    }
    out
}

/// The first occurrence of `p` in `h`, matching [`after_first_occ_index`].
pub fn first_occurrence(h: &Vec<char>, p: &Vec<char>) -> (r: Option<usize>)
    ensures
        match r {
            Some(i) => after_first_occ_index(h@, p@) == Some(i as int) && occurs_at(h@, p@, i as int),
            None => after_first_occ_index(h@, p@) is None,
        },
{
    let r = find_from(h, p, 0);
    match r {
        Some(i) => {
            assert(is_first_occ(h@, p@, i as int));
            assert forall|k: int| is_first_occ(h@, p@, k) implies k == i by {
                if k > i {
                    assert(occurs_at(h@, p@, i as int));
                }
            }
        },
        None => {},
    }
    r
}

/// The text after the first occurrence of `p` in `h`, matching [`after_first_occ`].
pub fn split_once_right(h: &Vec<char>, p: &Vec<char>) -> (r: Option<Vec<char>>)
    ensures
        match r {
            Some(v) => after_first_occ(h@, p@) == Some(v@),
            None => after_first_occ(h@, p@) is None,
        },
{
    match first_occurrence(h, p) {
        Some(i) => {
            let plen = p.len();
            let hl = h.len();
            assert(occurs_at(h@, p@, i as int));
            assert(i + plen <= hl);
            Some(slice_chars(h, i + plen, hl))
        },
        None => None,
    }
}

fn goal_of_start_line(line: &Vec<char>) -> (r: Option<String>)
    ensures
        match r {
            Some(g) => start_goal(line@) == Some(g@),
            None => start_goal(line@) is None,
        },
{
    let pat = chars_of("goal=");
    match split_once_right(line, &pat) {
        Some(rest) => {
            let piece = match first_occurrence(&rest, &pat) {
                Some(j) => slice_chars(&rest, 0, j),
                None => rest,
            };
            let g = trim_chars(&piece);
            let none = chars_of("(none)");
            if seq_eq(&g, &none) {
                None
            } else {
                Some(string_of(&g))
            }
        },
        None => None,
    }
}

impl RunStatus {
    /// A copy of the status.
    pub fn copy(&self) -> (r: RunStatus)
        ensures
            r@ == self@,
    {
        RunStatus {
            running: self.running,
            goal: match &self.goal {
                Some(g) => Some(g.clone()),
                None => None,
            },
            iterations: self.iterations,
            stop_reason: match &self.stop_reason {
                Some(x) => Some(x.clone()),
                None => None,
            },
        }
    }

    /// Nothing observed yet.
    pub fn new() -> (r: RunStatus)
        ensures
            r@ == idle_status(),
    {
        RunStatus { running: false, goal: None, iterations: None, stop_reason: None }
    }

    /// Observes one log line (see [`observe_spec`]).
    pub fn observe(&mut self, line: &str)
        ensures
            final(self)@ == observe_spec(old(self)@, line@),
    {
        let cs = chars_of(line);
        let start = chars_of("run_loop 開始");
        if vec_contains(&cs, &start) {
            self.running = true;
            self.iterations = None;
            self.stop_reason = None;
            self.goal = goal_of_start_line(&cs);
            return ;
        }
        let cycles = chars_of("サイクル数:");
        if let Some(rest) = split_once_right(&cs, &cycles) {
            let t = trim_chars(&rest);
            self.iterations = parse_u64(&t);
            return ;
        }
        let stop = chars_of("停止理由:");
        if let Some(rest) = split_once_right(&cs, &stop) {
            let t = trim_chars(&rest);
            self.stop_reason = Some(string_of(&t));
            self.running = false;
        }
    }

    /// One-line summary: `実行中 goal=<g> iterations=<n>` while running,
    /// `停止 reason=<r> iterations=<n>` after a stop, `未実行` otherwise
    /// (`(none)` for no goal, `?` for an unknown count).
    pub fn summary(&self) -> (out: String)
        ensures
            out@ == summary_spec(self@),
    {
        if self.running {
            let mut s = String::from_str("実行中 goal=");
            match &self.goal {
                Some(g) => s.append(g.as_str()),
                None => s.append("(none)"),
            }
            s.append(" iterations=");
            push_count(&mut s, self.iterations);
            s
        } else if let Some(reason) = &self.stop_reason {
            let mut s = String::from_str("停止 reason=");
            s.append(reason.as_str());
            s.append(" iterations=");
            push_count(&mut s, self.iterations);
            s
        } else {
            String::from_str("未実行")
        }
    }
}

/// A count as text, `?` when unknown.
pub open spec fn count_text(n: Option<u64>) -> Seq<char> {
    match n {
        Some(n) => dec(n as nat),
        None => "?"@,
    }
}

fn push_count(s: &mut String, n: Option<u64>)
    ensures
        final(s)@ == old(s)@ + count_text(n),
{
    match n {
        Some(n) => push_dec(s, n),
        None => s.append("?"),
    }
}

/// The summary line of a status.
pub open spec fn summary_spec(s: StatusView) -> Seq<char> {
    if s.running {
        "実行中 goal="@ + (match s.goal {
            Some(g) => g,
            None => "(none)"@,
        }) + " iterations="@ + count_text(s.iterations)
    } else {
        match s.stop_reason {
            Some(r) => "停止 reason="@ + r + " iterations="@ + count_text(s.iterations),
            None => "未実行"@,
        }
    }
}

} // verus!
