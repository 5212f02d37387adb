//! Pipeline tasks built on the authoring tab: the action chosen for a
//! recognised template, the matching engine, the screen region, and the
//! plain fields of a task built from them. Writing the task and its template
//! image to disk, and the match threshold (a float), are outside this module.
use vstd::prelude::*;
use vstd::string::*;

use crate::text::{owned, str_eq};

verus! {

/// Screen mode of the studio.
#[derive(Debug, Clone, Copy, PartialEq, Eq)]
pub enum AppMode {
    /// Template authoring (ROI selection and discrimination check).
    Authoring,
    /// Batch evaluation (confusion matrix).
    Batch,
}

/// Matching engine used to judge a template.
#[derive(Debug, Clone, Copy, PartialEq, Eq)]
pub enum EngineKind {
    /// Normalised sum of squared differences.
    Sse,
    /// Normalised correlation coefficient (robust to brightness shifts).
    Ccoeff,
}

impl Default for EngineKind {
    fn default() -> (r: EngineKind)
        ensures
            r == EngineKind::Ccoeff,
    {
        EngineKind::Ccoeff
    }
}

/// The method text of an engine.
pub open spec fn method_spec(k: EngineKind) -> Seq<char> {
    match k {
        EngineKind::Sse => "sse"@,
        EngineKind::Ccoeff => "ccoeff"@,
    }
}

impl EngineKind {
    /// The method text of the engine (see [`method_spec`]).
    pub fn method_str(self) -> (r: &'static str)
        ensures
            r@ == method_spec(self),
    {
        match self {
            EngineKind::Sse => "sse",
            EngineKind::Ccoeff => "ccoeff",
        }
    }
}

/// What a task does when its template is recognised.
#[derive(Debug, Clone, Copy, PartialEq, Eq)]
pub enum PipelineActionKind {
    /// Tap the match position (`click_self`).
    ClickSelf,
    /// Do nothing (`do_nothing`).
    DoNothing,
    /// Stop (`stop`).
    Stop,
}

/// The combo-box label of an action kind.
pub open spec fn action_label_spec(k: PipelineActionKind) -> Seq<char> {
    match k {
        PipelineActionKind::ClickSelf => "click_self (マッチ位置をタップ)"@,
        PipelineActionKind::DoNothing => "do_nothing (何もしない)"@,
        PipelineActionKind::Stop => "stop (停止)"@,
    }
}

impl PipelineActionKind {
    /// The combo-box label (see [`action_label_spec`]).
    pub fn label(self) -> (r: &'static str)
        ensures
            r@ == action_label_spec(self),
    {
        match self {
            PipelineActionKind::ClickSelf => "click_self (マッチ位置をタップ)",
            PipelineActionKind::DoNothing => "do_nothing (何もしない)",
            PipelineActionKind::Stop => "stop (停止)",
        }
    }

    /// The action kind whose label is `label`; `None` for any other text.
    pub fn from_label(label: &str) -> (r: Option<PipelineActionKind>)
        ensures
            match r {
                Some(k) => action_label_spec(k) == label@,
                None => forall|k: PipelineActionKind| action_label_spec(k) != label@,
            },
    {
        proof {
            reveal_strlit("click_self (マッチ位置をタップ)");
            reveal_strlit("do_nothing (何もしない)");
            reveal_strlit("stop (停止)");
        }
        if str_eq(label, PipelineActionKind::ClickSelf.label()) {
            Some(PipelineActionKind::ClickSelf)
        } else if str_eq(label, PipelineActionKind::DoNothing.label()) {
            Some(PipelineActionKind::DoNothing)
        } else if str_eq(label, PipelineActionKind::Stop.label()) {
            Some(PipelineActionKind::Stop)
        } else {
            proof {
                assert forall|k: PipelineActionKind| action_label_spec(k) != label@ by {
                    match k {
                        PipelineActionKind::ClickSelf => {},
                        PipelineActionKind::DoNothing => {},
                        PipelineActionKind::Stop => {},
                    }
                }
            }
            None
        }
    }
}

/// Matching algorithm of a pipeline task.
#[derive(Debug, Clone, Copy, PartialEq, Eq)]
pub enum Algorithm {
    /// Normalised sum of squared differences.
    Sse,
    /// Normalised correlation coefficient.
    Ccoeff,
}

/// The algorithm named by a method text: `sse` or `ccoeff`, nothing else.
pub open spec fn algorithm_spec(method: Seq<char>) -> Option<Algorithm> {
    if method == "sse"@ {
        Some(Algorithm::Sse)
    } else if method == "ccoeff"@ {
        Some(Algorithm::Ccoeff)
    } else {
        None
    }
}

/// A rectangle of the screen in pixels.
#[derive(Debug, Clone, Copy, PartialEq, Eq)]
pub struct ScreenRegion {
    /// Left edge.
    pub x: u32,
    /// Top edge.
    pub y: u32,
    /// Width.
    pub width: u32,
    /// Height.
    pub height: u32,
}

impl ScreenRegion {
    /// A region from its left, top, width and height.
    pub fn new(x: u32, y: u32, width: u32, height: u32) -> (r: ScreenRegion)
        ensures
            r == (ScreenRegion { x, y, width, height }),
    {
        ScreenRegion { x, y, width, height }
    }
}

/// The plain fields of a pipeline task built on the authoring tab.
#[derive(Debug, Clone, PartialEq, Eq)]
pub struct PipelineTaskSpec {
    /// Task name.
    pub name: String,
    /// Scene state label.
    pub state: String,
    /// Matching algorithm.
    pub algorithm: Algorithm,
    /// Template file, relative to the pipeline directory: `<name>.png`.
    pub template: String,
    /// Search region `[x, y, width, height]`.
    pub roi: [u32; 4],
    /// Action on a match.
    pub action: PipelineActionKind,
    /// Next tasks (none).
    pub next: Vec<String>,
}

/// A task spec from the authoring inputs: `None` when `method` names no
/// algorithm (no silent fallback); the template is `<name>.png` and the
/// task has no successor.
pub fn pipeline_task_spec(
    name: &str,
    state: &str,
    method: &str,
    roi: ScreenRegion,
    action: PipelineActionKind,
) -> (r: Option<PipelineTaskSpec>)
    ensures
        match r {
            Some(t) => {
                &&& algorithm_spec(method@) == Some(t.algorithm)
                &&& t.name@ == name@
                &&& t.state@ == state@
                &&& t.template@ == name@ + ".png"@
                &&& t.roi@ == seq![roi.x, roi.y, roi.width, roi.height]
                &&& t.action == action
                &&& t.next@.len() == 0
            },
            None => algorithm_spec(method@) is None,
        },
{
    let algorithm = if str_eq(method, "sse") {
        Algorithm::Sse
    } else if str_eq(method, "ccoeff") {
        Algorithm::Ccoeff
    } else {
        return None;
    };
    let mut template = owned(name);
    template.append(".png");
    let rect = [roi.x, roi.y, roi.width, roi.height];
    assert(rect@ =~= seq![roi.x, roi.y, roi.width, roi.height]);
    Some(
        PipelineTaskSpec {
            name: owned(name),
            state: owned(state),
            algorithm,
            template,
            roi: rect,
            action,
            next: Vec::new(),
        },
    )
}

/// A label picks back the action kind it was made from.
pub proof fn law_action_label_roundtrip(a: PipelineActionKind, b: PipelineActionKind)
    ensures
        action_label_spec(a) == action_label_spec(b) <==> a == b,
{
    reveal_strlit("click_self (マッチ位置をタップ)");
    reveal_strlit("do_nothing (何もしない)");
    reveal_strlit("stop (停止)");
    if a != b {
        assert(action_label_spec(a)[0] != action_label_spec(b)[0]);
    }
}

} // verus!
