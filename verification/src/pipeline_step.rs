//! One step of a declarative pipeline after its template was recognised:
//! the input command the task's action asks for, and the task that comes
//! next.
//!
//! Recognition itself, and mapping a region given in the pipeline's raw
//! coordinate space to the normalised screenshot space, are outside work;
//! the mapping is handed in as `normalize`.
use vstd::prelude::*;
use vstd::string::*;

use crate::driver::{InputCommand, PipelineState};
use crate::studio_task::ScreenRegion;
use crate::text::views;

verus! {

/// What a task does when its template is recognised.
#[derive(Debug, Clone, Copy, PartialEq, Eq)]
pub enum Action {
    /// Tap the centre of the matched region.
    ClickSelf,
    /// Tap the centre of a fixed region (raw coordinates).
    ClickRect { roi: ScreenRegion },
    /// Swipe between the centres of two regions (raw coordinates).
    Swipe { from: ScreenRegion, to: ScreenRegion },
    /// Fire nothing.
    DoNothing,
    /// Stop the pipeline.
    Stop,
}

/// Whether the centre of `r` fits in `u32`.
pub open spec fn center_fits(r: ScreenRegion) -> bool {
    r.x + r.width / 2 <= u32::MAX && r.y + r.height / 2 <= u32::MAX
}

/// The centre of a region: its left plus half its width, its top plus half
/// its height (rounded down).
pub open spec fn center_spec(r: ScreenRegion) -> (u32, u32) {
    ((r.x + r.width / 2) as u32, (r.y + r.height / 2) as u32)
}

impl ScreenRegion {
    /// The centre (see [`center_spec`]).
    pub fn center(&self) -> (r: (u32, u32))
        requires
            center_fits(*self),
        ensures
            r == center_spec(*self),
    {
        (self.x + self.width / 2, self.y + self.height / 2)
    }
}

/// A region as `[x, y, w, h]`.
pub open spec fn rect_of(r: ScreenRegion) -> [u32; 4] {
    [r.x, r.y, r.width, r.height]
}

/// A region from `[x, y, w, h]`.
pub open spec fn region_of(a: [u32; 4]) -> ScreenRegion {
    ScreenRegion { x: a[0], y: a[1], width: a[2], height: a[3] }
}

/// The command of an action: `ClickSelf` taps the centre of the matched
/// region (nothing without one); `ClickRect` taps the centre of its region
/// and `Swipe` swipes between the centres of its regions, each region first
/// mapped by `normalize`; `DoNothing` and `Stop` fire nothing. The mapped
/// regions are given as `mapped` (in the order the action names them).
pub open spec fn command_spec(
    action: Action,
    matched: Option<ScreenRegion>,
    mapped: Seq<[u32; 4]>,
) -> Option<InputCommand> {
    match action {
        Action::ClickSelf => match matched {
            Some(r) => Some(
                InputCommand::Tap { x: center_spec(r).0, y: center_spec(r).1 },
            ),
            None => None,
        },
        Action::ClickRect { .. } => Some(
            InputCommand::Tap {
                x: center_spec(region_of(mapped[0])).0,
                y: center_spec(region_of(mapped[0])).1,
            },
        ),
        Action::Swipe { .. } => Some(
            InputCommand::Swipe { from: center_spec(region_of(mapped[0])), to: center_spec(region_of(mapped[1])) },
        ),
        Action::DoNothing => None,
        Action::Stop => None,
    }
}

/// Whether every centre the action may need fits in `u32`, whatever the
/// mapping returns for its regions.
pub open spec fn centers_fit<F: Fn([u32; 4]) -> [u32; 4]>(
    action: Action,
    matched: Option<ScreenRegion>,
    normalize: F,
) -> bool {
    &&& (matched matches Some(r) ==> center_fits(r))
    &&& forall|a: [u32; 4], b: [u32; 4]| call_ensures(normalize, (a,), b) ==> center_fits(region_of(b))
}

/// `r` is the command of `action` (see [`command_spec`]) for regions that
/// `normalize` returned for the action's regions.
pub open spec fn command_result<F: Fn([u32; 4]) -> [u32; 4]>(
    action: Action,
    matched: Option<ScreenRegion>,
    normalize: F,
    r: Option<InputCommand>,
) -> bool {
    match action {
        Action::ClickRect { roi } => exists|m: [u32; 4]|
            call_ensures(normalize, (rect_of(roi),), m) && r == command_spec(action, matched, seq![m]),
        Action::Swipe { from, to } => exists|m: [u32; 4], n: [u32; 4]|
            call_ensures(normalize, (rect_of(from),), m) && call_ensures(normalize, (rect_of(to),), n) && r
                == command_spec(action, matched, seq![m, n]),
        _ => r == command_spec(action, matched, Seq::empty()),
    }
}

/// The input command of an action (see [`command_spec`]).
pub fn action_to_command<F: Fn([u32; 4]) -> [u32; 4]>(
    action: &Action,
    matched_region: Option<ScreenRegion>,
    normalize: &F,
) -> (r: Option<InputCommand>)
    requires
        forall|a: [u32; 4]| call_requires(*normalize, (a,)),
        centers_fit(*action, matched_region, *normalize),
    ensures
        command_result(*action, matched_region, *normalize, r),
{
    match action {
        Action::ClickSelf => match matched_region {
            Some(r) => {
                let (x, y) = r.center();
                Some(InputCommand::Tap { x, y })
            },
            None => None,
        },
        Action::ClickRect { roi } => {
            let raw = [roi.x, roi.y, roi.width, roi.height];
            assert(raw =~= rect_of(*roi));
            let m = (*normalize)(raw);
            let nr = ScreenRegion::new(m[0], m[1], m[2], m[3]);
            let (x, y) = nr.center();
            proof {
                assert(seq![m][0] == m);
            }
            Some(InputCommand::Tap { x, y })
        },
        Action::Swipe { from, to } => {
            let raw_from = [from.x, from.y, from.width, from.height];
            let raw_to = [to.x, to.y, to.width, to.height];
            assert(raw_from =~= rect_of(*from));
            assert(raw_to =~= rect_of(*to));
            let mf = (*normalize)(raw_from);
            let mt = (*normalize)(raw_to);
            let rf = ScreenRegion::new(mf[0], mf[1], mf[2], mf[3]);
            let rt = ScreenRegion::new(mt[0], mt[1], mt[2], mt[3]);
            let cf = rf.center();
            let ct = rt.center();
            proof {
                assert(seq![mf, mt][0] == mf);
                assert(seq![mf, mt][1] == mt);
            }
            Some(InputCommand::Swipe { from: cf, to: ct })
        },
        Action::DoNothing => None,
        Action::Stop => None,
    }
}

/// The next task: none after `Stop`, else the first successor (none when
/// the task has no successor).
pub open spec fn next_spec(action: Action, next: Seq<Seq<char>>) -> Option<Seq<char>> {
    match action {
        Action::Stop => None,
        _ => if next.len() > 0 {
            Some(next[0])
        } else {
            None
        },
    }
}

/// The next task (see [`next_spec`]).
pub fn advance_next(action: &Action, next: &Vec<String>) -> (r: Option<String>)
    ensures
        match r {
            Some(s) => next_spec(*action, views(next@)) == Some(s@),
            None => next_spec(*action, views(next@)) is None,
        },
{
    match action {
        Action::Stop => None,
        _ => if next.len() > 0 {
            Some(next[0].clone())
        } else {
            None
        },
    }
}

/// What a recognised step produced.
#[derive(Debug, Clone, PartialEq, Eq)]
pub struct TickResult {
    /// The command to fire, if any.
    pub command: Option<InputCommand>,
    /// The task moved to, if any.
    pub next_current: Option<String>,
    /// The region the template matched.
    pub matched_region: Option<ScreenRegion>,
}

impl PipelineState {
    /// Applies a recognised step of the current task: the task's `action`
    /// and successors `next`, matched at `matched_region`. Returns the
    /// command and the next task, and moves the current task there when
    /// there is one.
    pub fn tick_matched<F: Fn([u32; 4]) -> [u32; 4]>(
        &mut self,
        action: &Action,
        next: &Vec<String>,
        matched_region: ScreenRegion,
        normalize: &F,
    ) -> (r: TickResult)
        requires
            forall|a: [u32; 4]| call_requires(*normalize, (a,)),
            centers_fit(*action, Some(matched_region), *normalize),
        ensures
            r.matched_region == Some(matched_region),
            match r.next_current {
                Some(s) => next_spec(*action, views(next@)) == Some(s@) && final(self).current@ == s@,
                None => next_spec(*action, views(next@)) is None && final(self).current@ == old(self).current@,
            },
            command_result(*action, Some(matched_region), *normalize, r.command),
    {
        let command = action_to_command(action, Some(matched_region), normalize);
        let next_current = advance_next(action, next);
        match &next_current {
            Some(n) => {
                self.set_current(n.as_str());
            },
            None => {},
        }
        TickResult { command, next_current, matched_region: Some(matched_region) }
    }
}

} // verus!
