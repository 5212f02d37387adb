//! Demonstration authoring: a session that turns two gestures on the live
//! view, a tap and a recognition region given in either order, into one
//! confirmed scenario step, and undoes them again.
//!
//! The session keeps the size of the current frame, not its pixels: cutting
//! the template out of the frame and judging its quality are outside work,
//! handed in as `inspect`, which receives the clipped region of a step being
//! confirmed and answers with its quality warnings.
use vstd::prelude::*;
use vstd::string::*;

use crate::driver::{opt_view, Goal, StopCondition};
use crate::studio_task::{
    algorithm_spec, pipeline_task_spec, Algorithm, PipelineActionKind, PipelineTaskSpec, ScreenRegion,
};
use crate::text::{dec, owned, push_dec, views};

verus! {

/// Method text of the algorithm used for authored steps.
pub const AUTHORING_METHOD: &'static str = "ccoeff";

/// State label of authored steps unless set otherwise.
pub const DEFAULT_STATE: &'static str = "field";

/// `min(a, b)`.
pub open spec fn min_u32(a: u32, b: u32) -> u32 {
    if a < b {
        a
    } else {
        b
    }
}

/// The part of `roi` (`[x, y, w, h]`) inside a `fw` x `fh` frame; `None`
/// when the region is empty or starts outside the frame.
pub open spec fn clamp_spec(roi: [u32; 4], fw: u32, fh: u32) -> Option<[u32; 4]> {
    if roi[2] == 0 || roi[3] == 0 || roi[0] >= fw || roi[1] >= fh {
        None
    } else {
        Some([roi[0], roi[1], min_u32(roi[2], (fw - roi[0]) as u32), min_u32(roi[3], (fh - roi[1]) as u32)])
    }
}

/// Clips a region to the frame (see [`clamp_spec`]).
pub fn clamp_region_to_frame(roi: [u32; 4], fw: u32, fh: u32) -> (r: Option<[u32; 4]>)
    ensures
        r == clamp_spec(roi, fw, fh),
{
    let x = roi[0];
    let y = roi[1];
    let w = roi[2];
    let h = roi[3];
    if w == 0 || h == 0 || x >= fw || y >= fh {
        return None;
    }
    let cw = if w < fw - x {
        w
    } else {
        fw - x
    };
    let ch = if h < fh - y {
        h
    } else {
        fh - y
    };
    Some([x, y, cw, ch])
}

/// Whether `pos` lies in `roi` (right and bottom edges excluded).
pub open spec fn contains_spec(roi: [u32; 4], pos: (u32, u32)) -> bool {
    pos.0 >= roi[0] && pos.1 >= roi[1] && pos.0 - roi[0] < roi[2] && pos.1 - roi[1] < roi[3]
}

/// Whether `pos` lies in `roi` (see [`contains_spec`]).
pub fn region_contains(roi: [u32; 4], pos: (u32, u32)) -> (r: bool)
    ensures
        r == contains_spec(roi, pos),
{
    pos.0 >= roi[0] && pos.1 >= roi[1] && pos.0 - roi[0] < roi[2] && pos.1 - roi[1] < roi[3]
}

/// std `Debug` text of a region: `[x, y, w, h]`.
pub open spec fn roi_text(roi: [u32; 4]) -> Seq<char> {
    "["@ + dec(roi[0] as nat) + ", "@ + dec(roi[1] as nat) + ", "@ + dec(roi[2] as nat) + ", "@ + dec(
        roi[3] as nat,
    ) + "]"@
}

fn push_roi(s: &mut String, roi: [u32; 4])
    ensures
        final(s)@ == old(s)@ + roi_text(roi),
{
    s.append("[");
    push_dec(s, roi[0] as u64);
    s.append(", ");
    push_dec(s, roi[1] as u64);
    s.append(", ");
    push_dec(s, roi[2] as u64);
    s.append(", ");
    push_dec(s, roi[3] as u64);
    s.append("]");
}

/// Name of the `n`-th authored step: `AuthoredStep` and `n` with at least two
/// digits.
pub open spec fn step_name_spec(n: nat) -> Seq<char> {
    if n < 10 {
        "AuthoredStep0"@ + dec(n)
    } else {
        "AuthoredStep"@ + dec(n)
    }
}

fn step_name(n: u64) -> (s: String)
    ensures
        s@ == step_name_spec(n as nat),
{
    let mut s = if n < 10 {
        String::from_str("AuthoredStep0")
    } else {
        String::from_str("AuthoredStep")
    };
    push_dec(&mut s, n);
    s
}

/// The warning for a region clipped to the frame.
pub open spec fn clip_warning(roi: [u32; 4], fw: u32, fh: u32, c: [u32; 4]) -> Seq<char> {
    "警告: 認識領域 "@ + roi_text(roi) + " が現行フレーム ("@ + dec(fw as nat) + "x"@ + dec(fh as nat)
        + ") 外にはみ出したため "@ + dec(c[2] as nat) + "x"@ + dec(c[3] as nat) + " へクリップしました"@
}

/// The warning for a tap outside the (clipped) region.
pub open spec fn tap_warning(tap: (u32, u32), c: [u32; 4]) -> Seq<char> {
    "警告: 記録タップ位置 ("@ + dec(tap.0 as nat) + ", "@ + dec(tap.1 as nat) + ") が認識領域 "@ + roi_text(c)
        + " の外です (実行時タップはマッチ中心から導かれるため確定しますが、意図した UI 要素とは別の領域を認識している恐れがあります)"@
}

/// The warning for a template (`needle`, width and height) larger than the
/// task's region `roi`; none when `fits` or when the region is the whole
/// screen.
pub open spec fn needle_roi_warning_spec(fits: bool, needle: (u32, u32), roi: Option<[u32; 4]>) -> Option<
    Seq<char>,
> {
    if fits {
        None
    } else {
        match roi {
            None => None,
            Some(r) => Some(
                "警告: テンプレート ("@ + dec(needle.0 as nat) + "x"@ + dec(needle.1 as nat) + ") が ROI ("@ + dec(
                    r[2] as nat,
                ) + "x"@ + dec(r[3] as nat)
                    + ") より大きい — ROI 内に needle が収まらず恒久 NoMatch になります (テンプレート差し替え時は ROI を対で更新してください)"@,
            ),
        }
    }
}

/// The warning shown when a template does not fit the region of its task:
/// `fits` is the recogniser's verdict on `needle` (width, height) and `roi`
/// (none for the whole screen). The warning names both sizes; saving is
/// never blocked by it.
pub fn needle_roi_warning(fits: bool, needle: (u32, u32), roi: Option<[u32; 4]>) -> (r: Option<String>)
    ensures
        opt_view(r) == needle_roi_warning_spec(fits, needle, roi),
{
    if fits {
        return None;
    }
    let r = match roi {
        Some(r) => r,
        None => {
            return None;
        },
    };
    let mut w = String::from_str("警告: テンプレート (");
    push_dec(&mut w, needle.0 as u64);
    w.append("x");
    push_dec(&mut w, needle.1 as u64);
    w.append(") が ROI (");
    push_dec(&mut w, r[2] as u64);
    w.append("x");
    push_dec(&mut w, r[3] as u64);
    w.append(
        ") より大きい — ROI 内に needle が収まらず恒久 NoMatch になります (テンプレート差し替え時は ROI を対で更新してください)",
    );
    Some(w)
}

/// Whether two regions are the same.
pub open spec fn same_roi(a: [u32; 4], b: [u32; 4]) -> bool {
    a[0] == b[0] && a[1] == b[1] && a[2] == b[2] && a[3] == b[3]
}

/// The warnings of a step: the clipping warning (when the region was
/// clipped), then the quality warnings, then the tap warning (when the tap
/// lies outside the clipped region).
pub open spec fn raw_warnings(
    roi: [u32; 4],
    fw: u32,
    fh: u32,
    c: [u32; 4],
    quality: Seq<Seq<char>>,
    tap: (u32, u32),
) -> Seq<Seq<char>> {
    (if !same_roi(c, roi) {
        seq![clip_warning(roi, fw, fh, c)]
    } else {
        Seq::empty()
    }) + quality + (if contains_spec(c, tap) {
        Seq::empty()
    } else {
        seq![tap_warning(tap, c)]
    })
}

/// Each warning prefixed with the step name: `<name>: <warning>`.
pub open spec fn prefixed(name: Seq<char>, ws: Seq<Seq<char>>) -> Seq<Seq<char>> {
    ws.map_values(|w: Seq<char>| name + ": "@ + w)
}

fn append_all(v: &mut Vec<String>, w: &Vec<String>)
    ensures
        views(final(v)@) == views(old(v)@) + views(w@),
{
    let ghost before = views(v@);
    let mut k: usize = 0;
    while k < w.len()
        invariant
            k <= w@.len(),
            views(v@) == before + views(w@.take(k as int)),
        decreases w@.len() - k,
    {
        let ghost before_push = v@;
        v.push(w[k].clone());
        assert(views(v@) =~= views(before_push).push(w@[k as int]@));
        assert(views(w@.take(k + 1)) =~= views(w@.take(k as int)).push(w@[k as int]@));
        k = k + 1;
    }
    assert(w@.take(w@.len() as int) =~= w@);
}

/// A confirmed step.
#[derive(Debug)]
pub struct AuthoringStep {
    /// The step's task: recognise the clipped region, tap the match.
    pub task: PipelineTaskSpec,
    /// The recorded tap (a check anchor; the run taps the match centre).
    pub tap: (u32, u32),
}

/// A step as plain values: every field of its task, and the recorded tap.
pub struct StepModel {
    /// Task name.
    pub name: Seq<char>,
    /// Scene state label.
    pub state: Seq<char>,
    /// Matching algorithm.
    pub algorithm: Algorithm,
    /// Template file.
    pub template: Seq<char>,
    /// Search region.
    pub roi: [u32; 4],
    /// Action on a match.
    pub action: PipelineActionKind,
    /// Next tasks.
    pub next: Seq<Seq<char>>,
    /// The recorded tap.
    pub tap: (u32, u32),
}

/// A step as plain values.
pub open spec fn step_view(s: AuthoringStep) -> StepModel {
    StepModel {
        name: s.task.name@,
        state: s.task.state@,
        algorithm: s.task.algorithm,
        template: s.task.template@,
        roi: s.task.roi,
        action: s.task.action,
        next: views(s.task.next@),
        tap: s.tap,
    }
}

/// The step authored from a confirmation: recognise the clipped region `c`
/// with the template `<name>.png` by correlation, tap the match
/// (`ClickSelf`), no successor; `tap` is kept as the recorded tap.
pub open spec fn authored_step(name: Seq<char>, state: Seq<char>, c: [u32; 4], tap: (u32, u32)) -> StepModel {
    StepModel {
        name,
        state,
        algorithm: Algorithm::Ccoeff,
        template: name + ".png"@,
        roi: c,
        action: PipelineActionKind::ClickSelf,
        next: Seq::empty(),
        tap,
    }
}

/// The plain values of a list of steps.
pub open spec fn steps_view(v: Seq<AuthoringStep>) -> Seq<StepModel> {
    v.map_values(|s: AuthoringStep| step_view(s))
}

/// Result of recording a gesture.
#[derive(Debug, Clone, PartialEq, Eq)]
pub enum GestureOutcome {
    /// Recorded; the other gesture is still missing.
    Pending,
    /// Both gestures were there and the step is confirmed, with its warnings.
    Confirmed { warnings: Vec<String> },
}

/// Why a gesture was refused; the session is left as it was.
#[derive(Debug, Clone, PartialEq, Eq)]
pub enum AuthoringError {
    /// Both gestures are there but no frame was pushed yet.
    NoFrame,
    /// The region has zero width or height.
    RoiEmpty { roi: [u32; 4] },
    /// The region does not meet the current frame.
    RoiOutOfFrame { roi: [u32; 4], fw: u32, fh: u32 },
    /// The task of a step could not be built for `method`.
    TaskBuild { method: &'static str },
}

/// The message of an error.
pub open spec fn error_text(e: AuthoringError) -> Seq<char> {
    match e {
        AuthoringError::NoFrame => "no current frame: push a frame before completing a step"@,
        AuthoringError::RoiEmpty { roi } => "roi "@ + roi_text(roi) + " has zero width or height"@,
        AuthoringError::RoiOutOfFrame { roi, fw, fh } => "roi "@ + roi_text(roi)
            + " does not intersect the current frame ("@ + dec(fw as nat) + "x"@ + dec(fh as nat) + ")"@,
        AuthoringError::TaskBuild { method } => "internal: task build failed for method `"@ + method@ + "`"@,
    }
}

impl AuthoringError {
    /// The message of the error (see [`error_text`]).
    pub fn message(&self) -> (r: String)
        ensures
            r@ == error_text(*self),
    {
        match self {
            AuthoringError::NoFrame => String::from_str("no current frame: push a frame before completing a step"),
            AuthoringError::RoiEmpty { roi } => {
                let mut s = String::from_str("roi ");
                push_roi(&mut s, *roi);
                s.append(" has zero width or height");
                s
            },
            AuthoringError::RoiOutOfFrame { roi, fw, fh } => {
                let mut s = String::from_str("roi ");
                push_roi(&mut s, *roi);
                s.append(" does not intersect the current frame (");
                push_dec(&mut s, *fw as u64);
                s.append("x");
                push_dec(&mut s, *fh as u64);
                s.append(")");
                s
            },
            AuthoringError::TaskBuild { method } => {
                let mut s = String::from_str("internal: task build failed for method `");
                s.append(method);
                s.append("`");
                s
            },
        }
    }
}

/// A demonstration authoring session.
#[derive(Debug)]
pub struct AuthoringSession {
    name: String,
    state: String,
    goal: Goal,
    frame: Option<(u32, u32)>,
    pending_tap: Option<(u32, u32)>,
    pending_region: Option<[u32; 4]>,
    steps: Vec<AuthoringStep>,
    warnings: Vec<String>,
    saved_to: Option<String>,
}

impl AuthoringSession {
    /// Scenario name.
    pub closed spec fn name_view(&self) -> Seq<char> {
        self.name@
    }

    /// State label of the next steps.
    pub closed spec fn state_view(&self) -> Seq<char> {
        self.state@
    }

    /// The goal of the scenario.
    pub closed spec fn goal_view(&self) -> Goal {
        self.goal
    }

    /// Size of the current frame.
    pub closed spec fn frame_view(&self) -> Option<(u32, u32)> {
        self.frame
    }

    /// The recorded tap waiting for its region.
    pub closed spec fn tap_view(&self) -> Option<(u32, u32)> {
        self.pending_tap
    }

    /// The recorded region waiting for its tap.
    pub closed spec fn region_view(&self) -> Option<[u32; 4]> {
        self.pending_region
    }

    /// The confirmed steps, in order.
    pub closed spec fn steps_seq(&self) -> Seq<StepModel> {
        steps_view(self.steps@)
    }

    /// Every warning of the confirmed steps, in order.
    pub closed spec fn warnings_view(&self) -> Seq<Seq<char>> {
        views(self.warnings@)
    }

    /// The directory the session was last saved to.
    pub closed spec fn saved_view(&self) -> Option<Seq<char>> {
        match self.saved_to {
            Some(d) => Some(d@),
            None => None,
        }
    }

    /// An empty session named `name`: state label `field`, goal a ten-minute
    /// timeout, no frame, no gesture, no step.
    pub fn new(name: &str) -> (s: AuthoringSession)
        ensures
            s.name_view() == name@,
            s.state_view() == DEFAULT_STATE@,
            s.goal_view().name@ == "authoring_timeout"@,
            s.goal_view().stop == (StopCondition::Timeout { secs: 600 }),
            s.frame_view() is None,
            s.tap_view() is None,
            s.region_view() is None,
            s.steps_seq().len() == 0,
            s.warnings_view().len() == 0,
            s.saved_view() is None,
    {
        AuthoringSession {
            name: owned(name),
            state: owned(DEFAULT_STATE),
            goal: Goal { name: owned("authoring_timeout"), stop: StopCondition::Timeout { secs: 600 } },
            frame: None,
            pending_tap: None,
            pending_region: None,
            steps: Vec::new(),
            warnings: Vec::new(),
            saved_to: None,
        }
    }

    /// Scenario name.
    pub fn name(&self) -> (r: &str)
        ensures
            r@ == self.name_view(),
    {
        self.name.as_str()
    }

    /// Sets the state label of the steps confirmed from now on.
    pub fn set_state(&mut self, state: &str)
        ensures
            final(self).state_view() == state@,
            final(self).name_view() == old(self).name_view(),
            final(self).goal_view() == old(self).goal_view(),
            final(self).frame_view() == old(self).frame_view(),
            final(self).tap_view() == old(self).tap_view(),
            final(self).region_view() == old(self).region_view(),
            final(self).steps_seq() == old(self).steps_seq(),
            final(self).warnings_view() == old(self).warnings_view(),
            final(self).saved_view() == old(self).saved_view(),
    {
        self.state = owned(state);
    }

    /// Replaces the goal of the scenario.
    pub fn set_goal(&mut self, goal: Goal)
        ensures
            final(self).goal_view() == goal,
            final(self).state_view() == old(self).state_view(),
            final(self).name_view() == old(self).name_view(),
            final(self).frame_view() == old(self).frame_view(),
            final(self).tap_view() == old(self).tap_view(),
            final(self).region_view() == old(self).region_view(),
            final(self).steps_seq() == old(self).steps_seq(),
            final(self).warnings_view() == old(self).warnings_view(),
            final(self).saved_view() == old(self).saved_view(),
    {
        self.goal = goal;
    }

    /// The goal of the scenario.
    pub fn goal(&self) -> (r: &Goal)
        ensures
            *r == self.goal_view(),
    {
        &self.goal
    }

    /// Records the size of the current live frame (steps are cut from it).
    pub fn push_frame(&mut self, width: u32, height: u32)
        ensures
            final(self).frame_view() == Some((width, height)),
            final(self).state_view() == old(self).state_view(),
            final(self).name_view() == old(self).name_view(),
            final(self).goal_view() == old(self).goal_view(),
            final(self).tap_view() == old(self).tap_view(),
            final(self).region_view() == old(self).region_view(),
            final(self).steps_seq() == old(self).steps_seq(),
            final(self).warnings_view() == old(self).warnings_view(),
            final(self).saved_view() == old(self).saved_view(),
    {
        self.frame = Some((width, height));
    }

    /// The tap waiting for its region.
    pub fn pending_tap(&self) -> (r: Option<(u32, u32)>)
        ensures
            r == self.tap_view(),
    {
        self.pending_tap
    }

    /// The region waiting for its tap.
    pub fn pending_region(&self) -> (r: Option<[u32; 4]>)
        ensures
            r == self.region_view(),
    {
        self.pending_region
    }

    /// The confirmed steps, in order.
    pub fn steps(&self) -> (r: &[AuthoringStep])
        ensures
            steps_view(r@) == self.steps_seq(),
    {
        self.steps.as_slice()
    }

    /// Every warning of the confirmed steps, in order.
    pub fn warnings(&self) -> (r: &[String])
        ensures
            views(r@) == self.warnings_view(),
    {
        self.warnings.as_slice()
    }

    /// Records the directory the session was saved to.
    pub fn mark_saved(&mut self, dir: &str)
        ensures
            final(self).saved_view() == Some(dir@),
            final(self).state_view() == old(self).state_view(),
            final(self).name_view() == old(self).name_view(),
            final(self).goal_view() == old(self).goal_view(),
            final(self).frame_view() == old(self).frame_view(),
            final(self).tap_view() == old(self).tap_view(),
            final(self).region_view() == old(self).region_view(),
            final(self).steps_seq() == old(self).steps_seq(),
            final(self).warnings_view() == old(self).warnings_view(),
    {
        self.saved_to = Some(owned(dir));
    }

    /// The directory the session was last saved to.
    pub fn saved_to(&self) -> (r: Option<&str>)
        ensures
            match r {
                Some(d) => self.saved_view() == Some(d@),
                None => self.saved_view() is None,
            },
    {
        match &self.saved_to {
            Some(d) => Some(d.as_str()),
            None => None,
        }
    }

    /// Confirms the step when both gestures are there (see the contract of
    /// [`AuthoringSession::record_tap`]); on an error nothing changes.
    fn try_confirm<F: Fn([u32; 4]) -> Vec<String>>(&mut self, inspect: &F) -> (r: Result<
        GestureOutcome,
        AuthoringError,
    >)
        requires
            old(self).steps_seq().len() + 1 < u64::MAX,
            forall|c: [u32; 4]| call_requires(*inspect, (c,)),
        ensures
            confirm_result(*old(self), old(self).tap_view(), old(self).region_view(), *final(self), *inspect, r),
            r is Err ==> same_session(*old(self), *final(self)),
    {
        let (tap, region) = match (self.pending_tap, self.pending_region) {
            (Some(t), Some(g)) => (t, g),
            _ => {
                return Ok(GestureOutcome::Pending);
            },
        };
        let (fw, fh) = match self.frame {
            Some(d) => d,
            None => {
                return Err(AuthoringError::NoFrame);
            },
        };
        let clamped = match clamp_region_to_frame(region, fw, fh) {
            Some(c) => c,
            None => {
                return Err(AuthoringError::RoiOutOfFrame { roi: region, fw, fh });
            },
        };
        let quality = (*inspect)(clamped);
        let mut raw: Vec<String> = Vec::new();
        if clamped[0] != region[0] || clamped[1] != region[1] || clamped[2] != region[2] || clamped[3]
            != region[3] {
            let mut w = String::from_str("警告: 認識領域 ");
            push_roi(&mut w, region);
            w.append(" が現行フレーム (");
            push_dec(&mut w, fw as u64);
            w.append("x");
            push_dec(&mut w, fh as u64);
            w.append(") 外にはみ出したため ");
            push_dec(&mut w, clamped[2] as u64);
            w.append("x");
            push_dec(&mut w, clamped[3] as u64);
            w.append(" へクリップしました");
            raw.push(w);
        }
        let ghost head = views(raw@);
        assert(head =~= (if !same_roi(clamped, region) {
            seq![clip_warning(region, fw, fh, clamped)]
        } else {
            Seq::<Seq<char>>::empty()
        }));
        let mut i: usize = 0;
        while i < quality.len()
            invariant
                i <= quality@.len(),
                views(raw@) == head + views(quality@.take(i as int)),
            decreases quality@.len() - i,
        {
            let ghost before_push = raw@;
            raw.push(quality[i].clone());
            assert(views(raw@) =~= views(before_push).push(quality@[i as int]@));
            assert(views(quality@.take(i + 1)) =~= views(quality@.take(i as int)).push(quality@[i as int]@));
            i = i + 1;
        }
        assert(quality@.take(quality@.len() as int) =~= quality@);
        let ghost mid = views(raw@);
        if !region_contains(clamped, tap) {
            let mut w = String::from_str("警告: 記録タップ位置 (");
            push_dec(&mut w, tap.0 as u64);
            w.append(", ");
            push_dec(&mut w, tap.1 as u64);
            w.append(") が認識領域 ");
            push_roi(&mut w, clamped);
            w.append(
                " の外です (実行時タップはマッチ中心から導かれるため確定しますが、意図した UI 要素とは別の領域を認識している恐れがあります)",
            );
            raw.push(w);
        }
        assert(views(raw@) =~= mid + (if contains_spec(clamped, tap) {
            Seq::<Seq<char>>::empty()
        } else {
            seq![tap_warning(tap, clamped)]
        }));
        assert(views(raw@) =~= raw_warnings(region, fw, fh, clamped, views(quality@), tap));
        let n = self.steps.len() as u64 + 1;
        let name = step_name(n);
        let task = match pipeline_task_spec(
            name.as_str(),
            self.state.as_str(),
            AUTHORING_METHOD,
            ScreenRegion::new(clamped[0], clamped[1], clamped[2], clamped[3]),
            PipelineActionKind::ClickSelf,
        ) {
            Some(t) => t,
            None => {
                proof {
                    reveal_strlit("ccoeff");
                    reveal_strlit("sse");
                }
                return Err(AuthoringError::TaskBuild { method: AUTHORING_METHOD });
            },
        };
        assert(task.roi =~= clamped);
        proof {
            reveal_strlit("ccoeff");
            reveal_strlit("sse");
            assert(AUTHORING_METHOD@ == "ccoeff"@);
            assert("ccoeff"@.len() == 6 && "sse"@.len() == 3);
            assert("ccoeff"@ != "sse"@);
            assert(algorithm_spec(AUTHORING_METHOD@) == Some(Algorithm::Ccoeff));
            assert(task.algorithm == Algorithm::Ccoeff);
            assert(views(task.next@) =~= Seq::<Seq<char>>::empty());
        }
        let mut step_warnings: Vec<String> = Vec::new();
        let mut j: usize = 0;
        while j < raw.len()
            invariant
                j <= raw@.len(),
                views(step_warnings@) == prefixed(name@, views(raw@.take(j as int))),
            decreases raw@.len() - j,
        {
            let mut w = name.clone();
            w.append(": ");
            w.append(raw[j].as_str());
            let ghost before_push = step_warnings@;
            step_warnings.push(w);
            assert(views(step_warnings@) =~= views(before_push).push(name@ + ": "@ + raw@[j as int]@));
            assert(prefixed(name@, views(raw@.take(j + 1))) =~= prefixed(name@, views(raw@.take(j as int))).push(
                name@ + ": "@ + raw@[j as int]@,
            ));
            j = j + 1;
        }
        assert(raw@.take(raw@.len() as int) =~= raw@);
        append_all(&mut self.warnings, &step_warnings);
        let ghost old_steps = self.steps@;
        let step = AuthoringStep { task, tap };
        assert(step_view(step) == authored_step(name@, self.state@, clamped, tap));
        self.steps.push(step);
        assert(self.steps@ == old_steps.push(step));
        assert(steps_view(self.steps@) =~= steps_view(old_steps).push(authored_step(name@, self.state@, clamped, tap)));
        self.pending_tap = None;
        self.pending_region = None;
        Ok(GestureOutcome::Confirmed { warnings: step_warnings })
    }

    /// Records a tap (a later tap replaces an earlier pending one). When a
    /// region is pending too, the step is confirmed at once; when that fails,
    /// the tap is dropped and the session is as before.
    pub fn record_tap<F: Fn([u32; 4]) -> Vec<String>>(&mut self, pos: (u32, u32), inspect: &F) -> (r: Result<
        GestureOutcome,
        AuthoringError,
    >)
        requires
            old(self).steps_seq().len() + 1 < u64::MAX,
            forall|c: [u32; 4]| call_requires(*inspect, (c,)),
        ensures
            match r {
                Err(_) => same_session(*old(self), *final(self)),
                _ => true,
            },
            confirm_result(*old(self), Some(pos), old(self).region_view(), *final(self), *inspect, r),
    {
        let prev = self.pending_tap;
        self.pending_tap = Some(pos);
        let r = self.try_confirm(inspect);
        if r.is_err() {
            self.pending_tap = prev;
        }
        r
    }

    /// Records a region (a later region replaces an earlier pending one). A
    /// region with zero width or height, or one that misses the current frame,
    /// is refused. When a tap is pending too, the step is confirmed at once;
    /// when that fails, the region is dropped and the session is as before.
    pub fn record_region<F: Fn([u32; 4]) -> Vec<String>>(&mut self, roi: [u32; 4], inspect: &F) -> (r: Result<
        GestureOutcome,
        AuthoringError,
    >)
        requires
            old(self).steps_seq().len() + 1 < u64::MAX,
            forall|c: [u32; 4]| call_requires(*inspect, (c,)),
        ensures
            match r {
                Err(_) => same_session(*old(self), *final(self)),
                _ => true,
            },
            roi[2] == 0 || roi[3] == 0 ==> r == Err::<GestureOutcome, AuthoringError>(
                AuthoringError::RoiEmpty { roi },
            ),
            roi[2] != 0 && roi[3] != 0 ==> match old(self).frame_view() {
                Some((fw, fh)) => if clamp_spec(roi, fw, fh) is None {
                    r == Err::<GestureOutcome, AuthoringError>(AuthoringError::RoiOutOfFrame { roi, fw, fh })
                } else {
                    confirm_result(*old(self), old(self).tap_view(), Some(roi), *final(self), *inspect, r)
                },
                None => confirm_result(*old(self), old(self).tap_view(), Some(roi), *final(self), *inspect, r),
            },
    {
        if roi[2] == 0 || roi[3] == 0 {
            return Err(AuthoringError::RoiEmpty { roi });
        }
        if let Some((fw, fh)) = self.frame {
            if clamp_region_to_frame(roi, fw, fh).is_none() {
                return Err(AuthoringError::RoiOutOfFrame { roi, fw, fh });
            }
        }
        let prev = self.pending_region;
        self.pending_region = Some(roi);
        let r = self.try_confirm(inspect);
        if r.is_err() {
            self.pending_region = prev;
        }
        r
    }

    /// Undoes the last action: pending gestures first, else the last step.
    /// Returns whether anything was undone.
    pub fn undo(&mut self) -> (r: bool)
        ensures
            undone(*old(self), *final(self), r),
    {
        if self.pending_tap.is_some() || self.pending_region.is_some() {
            self.pending_tap = None;
            self.pending_region = None;
            return true;
        }
        let ghost old_steps = self.steps@;
        let popped = self.steps.pop();
        proof {
            if old_steps.len() > 0 {
                assert(steps_view(self.steps@) =~= steps_view(old_steps).drop_last());
            }
        }
        popped.is_some()
    }

    /// The tasks of the scenario, in step order, each followed by the next
    /// step's task (the last by none).
    pub fn scenario_tasks(&self) -> (r: Vec<PipelineTaskSpec>)
        ensures
            r@.len() == self.steps_seq().len(),
            forall|i: int| 0 <= i < r@.len() ==> #[trigger] linked(r@[i], self.steps_seq(), i),
    {
        let mut out: Vec<PipelineTaskSpec> = Vec::new();
        let n = self.steps.len();
        let mut i: usize = 0;
        while i < n
            invariant
                n == self.steps@.len(),
                i <= n,
                out@.len() == i,
                forall|k: int| 0 <= k < i ==> #[trigger] linked(out@[k], steps_view(self.steps@), k),
            decreases n - i,
        {
            let t = &self.steps[i].task;
            let mut next: Vec<String> = Vec::new();
            if i + 1 < n {
                next.push(self.steps[i + 1].task.name.clone());
            }
            assert(views(next@) =~= if i + 1 < n {
                seq![self.steps@[i + 1].task.name@]
            } else {
                Seq::<Seq<char>>::empty()
            });
            let ghost old_out = out@;
            out.push(
                PipelineTaskSpec {
                    name: t.name.clone(),
                    state: t.state.clone(),
                    algorithm: t.algorithm,
                    template: t.template.clone(),
                    roi: t.roi,
                    action: t.action,
                    next,
                },
            );
            assert forall|k: int| 0 <= k < i + 1 implies #[trigger] linked(out@[k], steps_view(self.steps@), k) by {
                if k < i {
                    assert(out@[k] == old_out[k]);
                }
            }
            i = i + 1;
        }
        out
    }
}

/// Task `t` is the `k`-th of the scenario made of `steps`: it has the step's
/// name, state label, algorithm, template, region and action, and leads to
/// the next step (the last to none).
pub open spec fn linked(t: PipelineTaskSpec, steps: Seq<StepModel>, k: int) -> bool {
    &&& t.name@ == steps[k].name
    &&& t.state@ == steps[k].state
    &&& t.algorithm == steps[k].algorithm
    &&& t.template@ == steps[k].template
    &&& t.roi == steps[k].roi
    &&& t.action == steps[k].action
    &&& views(t.next@) == if k + 1 < steps.len() {
        seq![steps[k + 1].name]
    } else {
        Seq::<Seq<char>>::empty()
    }
}

/// `t` is `s` after an undo that returned `r`: pending gestures are dropped
/// first; without any, the last step is taken back; `r` says whether
/// anything was undone. Everything else stays.
pub open spec fn undone(s: AuthoringSession, t: AuthoringSession, r: bool) -> bool {
    &&& r == (s.tap_view() is Some || s.region_view() is Some || s.steps_seq().len() > 0)
    &&& t.tap_view() is None
    &&& t.region_view() is None
    &&& t.steps_seq() == if s.tap_view() is Some || s.region_view() is Some {
        s.steps_seq()
    } else if s.steps_seq().len() > 0 {
        s.steps_seq().drop_last()
    } else {
        s.steps_seq()
    }
    &&& t.state_view() == s.state_view()
    &&& t.name_view() == s.name_view()
    &&& t.goal_view() == s.goal_view()
    &&& t.frame_view() == s.frame_view()
    &&& t.warnings_view() == s.warnings_view()
    &&& t.saved_view() == s.saved_view()
}

/// Two sessions agree on everything visible.
pub open spec fn same_session(a: AuthoringSession, b: AuthoringSession) -> bool {
    &&& b.tap_view() == a.tap_view()
    &&& b.region_view() == a.region_view()
    &&& same_except_gestures(a, b)
}

/// Two sessions agree on everything visible but the pending gestures.
pub open spec fn same_except_gestures(a: AuthoringSession, b: AuthoringSession) -> bool {
    &&& b.name_view() == a.name_view()
    &&& b.state_view() == a.state_view()
    &&& b.goal_view() == a.goal_view()
    &&& b.frame_view() == a.frame_view()
    &&& b.steps_seq() == a.steps_seq()
    &&& b.warnings_view() == a.warnings_view()
    &&& b.saved_view() == a.saved_view()
}

/// What confirming does to session `s`, with `tap` and `region` as its
/// pending gestures, giving `t`:
/// - one gesture missing: `Pending`, nothing else changes;
/// - no frame: `NoFrame`; region outside the frame: `RoiOutOfFrame`;
/// - otherwise the step named after its number is appended (see
///   [`authored_step`]: the state label, the clipped region recognised with
///   the template `<name>.png` by correlation, the `ClickSelf` action, no
///   successor, and the tap); its warnings (see
///   [`raw_warnings`], with the quality warnings `inspect` gave for the
///   clipped region) are prefixed with its name, returned, and appended to
///   the session's warnings; both gestures are cleared.
pub open spec fn confirm_result<F: Fn([u32; 4]) -> Vec<String>>(
    s: AuthoringSession,
    tap: Option<(u32, u32)>,
    region: Option<[u32; 4]>,
    t: AuthoringSession,
    inspect: F,
    r: Result<GestureOutcome, AuthoringError>,
) -> bool {
    match (tap, region) {
        (Some(tap), Some(region)) => match s.frame_view() {
            None => r == Err::<GestureOutcome, AuthoringError>(AuthoringError::NoFrame) && same_except_gestures(
                s,
                t,
            ),
            Some((fw, fh)) => match clamp_spec(region, fw, fh) {
                None => r == Err::<GestureOutcome, AuthoringError>(
                    AuthoringError::RoiOutOfFrame { roi: region, fw, fh },
                ) && same_except_gestures(s, t),
                Some(c) => {
                    let name = step_name_spec(s.steps_seq().len() + 1);
                    &&& r matches Ok(GestureOutcome::Confirmed { warnings })
                    &&& exists|q: Vec<String>|
                        call_ensures(inspect, (c,), q) && views(r->Ok_0->warnings@) == prefixed(
                            name,
                            raw_warnings(region, fw, fh, c, views(q@), tap),
                        )
                    &&& t.steps_seq() == s.steps_seq().push(authored_step(name, s.state_view(), c, tap))
                    &&& t.warnings_view() == s.warnings_view() + views(r->Ok_0->warnings@)
                    &&& t.tap_view() is None
                    &&& t.region_view() is None
                    &&& t.name_view() == s.name_view()
                    &&& t.state_view() == s.state_view()
                    &&& t.goal_view() == s.goal_view()
                    &&& t.frame_view() == s.frame_view()
                    &&& t.saved_view() == s.saved_view()
                },
            },
        },
        _ => {
            &&& r == Ok::<GestureOutcome, AuthoringError>(GestureOutcome::Pending)
            &&& same_except_gestures(s, t)
            &&& t.tap_view() == tap
            &&& t.region_view() == region
        },
    }
}

/// The order of the two gestures does not matter: once both a tap and a
/// region are recorded, what is confirmed depends only on them and on the
/// session's frame, state label, steps and warnings, not on which gesture
/// came first.
pub proof fn law_gesture_order_irrelevant<F: Fn([u32; 4]) -> Vec<String>>(
    a: AuthoringSession,
    b: AuthoringSession,
    tap: (u32, u32),
    region: [u32; 4],
    t: AuthoringSession,
    inspect: F,
    r: Result<GestureOutcome, AuthoringError>,
)
    requires
        same_except_gestures(a, b),
        confirm_result(a, Some(tap), Some(region), t, inspect, r),
    ensures
        confirm_result(b, Some(tap), Some(region), t, inspect, r),
{
}

/// Undo takes back a confirmation: right after a step was confirmed no
/// gesture is pending, so undoing (see [`AuthoringSession::undo`]) removes
/// exactly that step and leaves the steps as they were before.
pub proof fn law_undo_reverts_confirm<F: Fn([u32; 4]) -> Vec<String>>(
    s: AuthoringSession,
    tap: Option<(u32, u32)>,
    region: Option<[u32; 4]>,
    t: AuthoringSession,
    inspect: F,
    r: Result<GestureOutcome, AuthoringError>,
)
    requires
        confirm_result(s, tap, region, t, inspect, r),
        r matches Ok(GestureOutcome::Confirmed { .. }),
    ensures
        t.tap_view() is None,
        t.region_view() is None,
        t.steps_seq().len() > 0,
        t.steps_seq().drop_last() == s.steps_seq(),
{
    let steps = t.steps_seq();
    assert(steps.drop_last() =~= s.steps_seq());
}

} // verus!
