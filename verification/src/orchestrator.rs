//! The decisions of the automation loop (sense, think, act): when a run
//! ends, how often each scene was seen, when to recover from unrecognised
//! screens, and which inputs a scene gets when no strategy claims it.
//!
//! The caller captures and recognises the screen, asks the registered
//! strategies, sends the inputs and sleeps; it reports each step here and
//! does what the answer says.
use vstd::prelude::*;
use crate::recovery::{recovery_spec, RecoveryAction, RecoveryInput, RecoveryPolicy};
use crate::state_machine::{is_unknown, step_spec, GameStateMachine, SceneTrack, UNKNOWN_SCENE};

verus! {

/// Pause after a failed screenshot before the next iteration, in
/// milliseconds.
pub const CAPTURE_RETRY_PAUSE_MS: u64 = 1000;

/// Pause between two iterations that acted, by default, in milliseconds.
pub const DEFAULT_LOOP_INTERVAL_MS: u64 = 500;

/// What the default actions look at in a scene.
#[derive(Debug, Clone, Copy, PartialEq, Eq)]
pub enum SceneKind {
    TitleScreen,
    Dialog,
    Loading,
    Other,
}

/// The inputs a scene gets when no strategy claims it: on the title screen
/// wait two seconds and tap the middle, on a dialog wait half a second and
/// tap near "yes", while loading wait two seconds, otherwise wait briefly.
pub open spec fn default_actions_spec(kind: SceneKind) -> Seq<RecoveryInput> {
    match kind {
        SceneKind::TitleScreen => seq![RecoveryInput::Wait { ms: 2000 }, RecoveryInput::Tap { x: 540, y: 1200 }],
        SceneKind::Dialog => seq![RecoveryInput::Wait { ms: 500 }, RecoveryInput::Tap { x: 750, y: 1500 }],
        SceneKind::Loading => seq![RecoveryInput::Wait { ms: 2000 }],
        SceneKind::Other => seq![RecoveryInput::Wait { ms: 300 }],
    }
}

/// The inputs for a scene: those of the strategy that claimed it, if one
/// did, else the defaults of its kind.
pub fn decide_actions(strategy_actions: Option<Vec<RecoveryInput>>, kind: SceneKind) -> (r: Vec<RecoveryInput>)
    ensures
        r@ == match strategy_actions {
            Some(v) => v@,
            None => default_actions_spec(kind),
        },
{
    if let Some(actions) = strategy_actions {
        return actions;
    }
    match kind {
        SceneKind::TitleScreen => {
            let v = vec![RecoveryInput::Wait { ms: 2000 }, RecoveryInput::Tap { x: 540, y: 1200 }];
            assert(v@ =~= default_actions_spec(kind));
            v
        },
        SceneKind::Dialog => {
            let v = vec![RecoveryInput::Wait { ms: 500 }, RecoveryInput::Tap { x: 750, y: 1500 }];
            assert(v@ =~= default_actions_spec(kind));
            v
        },
        SceneKind::Loading => {
            let v = vec![RecoveryInput::Wait { ms: 2000 }];
            assert(v@ =~= default_actions_spec(kind));
            v
        },
        SceneKind::Other => {
            let v = vec![RecoveryInput::Wait { ms: 300 }];
            assert(v@ =~= default_actions_spec(kind));
            v
        },
    }
}

/// Why a run ended.
#[derive(Debug, Clone, Copy, PartialEq, Eq)]
pub enum RunEnd {
    /// The runtime limit passed.
    MaxRuntimeReached,
    /// A terminal scene was reached after the first iteration.
    TerminalState,
    /// Recovery gave up on unrecognised screens.
    RecoveryGaveUp,
}

impl RunEnd {
    /// The reason as the run summary writes it.
    pub fn reason(&self) -> (s: &'static str)
        ensures
            s@ == run_end_reason_spec(*self),
    {
        match self {
            RunEnd::MaxRuntimeReached => "max_runtime_reached",
            RunEnd::TerminalState => "terminal_state",
            RunEnd::RecoveryGaveUp => "recovery_gave_up",
        }
    }
}

/// The reason text of each end.
pub open spec fn run_end_reason_spec(e: RunEnd) -> Seq<char> {
    match e {
        RunEnd::MaxRuntimeReached => "max_runtime_reached"@,
        RunEnd::TerminalState => "terminal_state"@,
        RunEnd::RecoveryGaveUp => "recovery_gave_up"@,
    }
}

/// What to do after a scene was recognised.
#[derive(Debug, Clone, PartialEq, Eq)]
pub enum SceneDecision {
    /// The run is over.
    Finish(RunEnd),
    /// The screen was not recognised: send these inputs, then go straight
    /// to the next iteration.
    Recover(Vec<RecoveryInput>),
    /// Send the scene's actions, then pause for the loop interval.
    Act,
}

/// `i` is the first entry of `counts` for `scene`.
pub open spec fn first_scene(counts: Seq<(u64, u64)>, scene: u64, i: int) -> bool {
    &&& 0 <= i < counts.len()
    &&& counts[i].0 == scene
    &&& forall|j: int| 0 <= j < i ==> counts[j].0 != scene
}

/// `counts` after one more sighting of `scene`: its entry goes up by one,
/// or a new entry with one is appended.
pub open spec fn count_scene(counts: Seq<(u64, u64)>, scene: u64) -> Seq<(u64, u64)> {
    if exists|i: int| first_scene(counts, scene, i) {
        let i = choose|i: int| first_scene(counts, scene, i);
        counts.update(i, (scene, (counts[i].1 + 1) as u64))
    } else {
        counts.push((scene, 1u64))
    }
}

/// No two entries count the same scene.
pub open spec fn scenes_unique(counts: Seq<(u64, u64)>) -> bool {
    forall|i: int, j: int| 0 <= i < j < counts.len() ==> counts[i].0 != counts[j].0
}

/// The sum of the counts.
pub open spec fn counts_total(counts: Seq<(u64, u64)>) -> nat
    decreases counts.len(),
{
    if counts.len() == 0 {
        0
    } else {
        counts_total(counts.drop_last()) + counts.last().1 as nat
    }
}

/// A run's state as plain values.
pub struct RunView {
    /// Iterations begun.
    pub total_loops: nat,
    /// Scenes recognised.
    pub scenes_seen: nat,
    /// How often each scene was seen, in the order first seen.
    pub counts: Seq<(u64, u64)>,
    /// The scene tracker.
    pub track: SceneTrack,
    /// Runtime limit in seconds; 0 for none.
    pub max_runtime_secs: u64,
    /// Unrecognised screens in a row tolerated before giving up.
    pub max_retries: u32,
}

/// A decision as plain values.
pub enum DecisionView {
    Finish(RunEnd),
    Recover(Seq<RecoveryInput>),
    Act,
}

/// The plain values of a decision.
pub open spec fn decision_view(d: SceneDecision) -> DecisionView {
    match d {
        SceneDecision::Finish(e) => DecisionView::Finish(e),
        SceneDecision::Recover(v) => DecisionView::Recover(v@),
        SceneDecision::Act => DecisionView::Act,
    }
}

/// The decision after `scene` was recognised, in the state before it:
/// a terminal scene ends the run from the second iteration on; an
/// unrecognised screen asks recovery with the new streak, and recovery may
/// give up; any other scene is acted on.
pub open spec fn scene_decision_spec(v: RunView, scene: u64, terminal: bool) -> DecisionView {
    let streak = step_spec(v.track, scene).streak;
    if terminal && v.total_loops > 1 {
        DecisionView::Finish(RunEnd::TerminalState)
    } else if is_unknown(scene) {
        match recovery_spec(v.max_retries, streak as u32) {
            None => DecisionView::Finish(RunEnd::RecoveryGaveUp),
            Some(inputs) => DecisionView::Recover(inputs),
        }
    } else {
        DecisionView::Act
    }
}

/// The state of one automation run.
pub struct OrchestratorRun {
    total_loops: u64,
    scenes_seen: u64,
    state_counts: Vec<(u64, u64)>,
    machine: GameStateMachine,
    recovery: RecoveryPolicy,
    max_runtime_secs: u64,
}

impl OrchestratorRun {
    /// The run as plain values.
    pub closed spec fn view(&self) -> RunView {
        RunView {
            total_loops: self.total_loops as nat,
            scenes_seen: self.scenes_seen as nat,
            counts: self.state_counts@,
            track: self.machine.track(),
            max_runtime_secs: self.max_runtime_secs,
            max_retries: self.recovery.limit(),
        }
    }

    /// The machine is well formed, each scene has one entry, and the entries
    /// add up to the scenes seen.
    pub closed spec fn wf(&self) -> bool {
        &&& self.machine.wf()
        &&& scenes_unique(self.state_counts@)
        &&& counts_total(self.state_counts@) == self.scenes_seen
    }

    /// A run that starts at the unrecognised scene, gives up beyond
    /// `max_unknown_retries` unrecognised screens in a row, and has a
    /// runtime limit of `max_runtime_secs` seconds (0 for none).
    pub fn new(max_unknown_retries: u32, max_runtime_secs: u64) -> (r: OrchestratorRun)
        ensures
            r.wf(),
            r.view() == (RunView {
                total_loops: 0,
                scenes_seen: 0,
                counts: Seq::empty(),
                track: SceneTrack { current: UNKNOWN_SCENE, history: Seq::empty(), streak: 0 },
                max_runtime_secs,
                max_retries: max_unknown_retries,
            }),
    {
        OrchestratorRun {
            total_loops: 0,
            scenes_seen: 0,
            state_counts: Vec::new(),
            machine: GameStateMachine::new(UNKNOWN_SCENE),
            recovery: RecoveryPolicy::new(max_unknown_retries),
            max_runtime_secs,
        }
    }

    /// Iterations begun so far.
    pub fn total_loops(&self) -> (n: u64)
        ensures
            n == self.view().total_loops,
    {
        self.total_loops
    }

    /// Scenes recognised so far.
    pub fn scenes_seen(&self) -> (n: u64)
        ensures
            n == self.view().scenes_seen,
    {
        self.scenes_seen
    }

    /// Unrecognised screens in a row.
    pub fn unknown_streak(&self) -> (n: u32)
        ensures
            n == self.view().track.streak,
    {
        self.machine.unknown_streak()
    }

    /// How often each scene was seen, in the order first seen.
    pub fn state_counts(&self) -> (c: &Vec<(u64, u64)>)
        ensures
            c@ == self.view().counts,
    {
        &self.state_counts
    }

    /// Begins an iteration; `past_limit` says whether the time since the
    /// start exceeds the runtime limit. With a limit set, that ends the run.
    pub fn begin_iteration(&mut self, past_limit: bool) -> (e: Option<RunEnd>)
        requires
            old(self).wf(),
            old(self).view().total_loops < u64::MAX,
        ensures
            final(self).wf(),
            final(self).view() == (RunView { total_loops: old(self).view().total_loops + 1, ..old(self).view() }),
            e == if old(self).view().max_runtime_secs > 0 && past_limit {
                Some(RunEnd::MaxRuntimeReached)
            } else {
                None::<RunEnd>
            },
    {
        self.total_loops = self.total_loops + 1;
        if self.max_runtime_secs > 0 && past_limit {
            Some(RunEnd::MaxRuntimeReached)
        } else {
            None
        }
    }

    /// Records the recognised `scene` (`terminal` when the scene ends the
    /// game) and decides what comes next.
    pub fn observe_scene(&mut self, scene: u64, terminal: bool) -> (d: SceneDecision)
        requires
            old(self).wf(),
            old(self).view().scenes_seen < u64::MAX,
            is_unknown(scene) ==> old(self).view().track.streak < u32::MAX,
        ensures
            final(self).wf(),
            final(self).view() == (RunView {
                scenes_seen: old(self).view().scenes_seen + 1,
                counts: count_scene(old(self).view().counts, scene),
                track: step_spec(old(self).view().track, scene),
                ..old(self).view()
            }),
            decision_view(d) == scene_decision_spec(old(self).view(), scene, terminal),
    {
        let current = self.machine.transition(scene);
        self.count(current);
        if terminal && self.total_loops > 1 {
            return SceneDecision::Finish(RunEnd::TerminalState);
        }
        if current == UNKNOWN_SCENE {
            let streak = self.machine.unknown_streak();
            match self.recovery.recover_actions(streak) {
                RecoveryAction::NoAction => SceneDecision::Recover(Vec::new()),
                RecoveryAction::Actions(v) => SceneDecision::Recover(v),
                RecoveryAction::GiveUp => SceneDecision::Finish(RunEnd::RecoveryGaveUp),
            }
        } else {
            SceneDecision::Act
        }
    }

    fn count(&mut self, scene: u64)
        requires
            old(self).wf(),
            old(self).scenes_seen < u64::MAX,
        ensures
            final(self).state_counts@ == count_scene(old(self).state_counts@, scene),
            final(self).scenes_seen == old(self).scenes_seen + 1,
            scenes_unique(final(self).state_counts@),
            counts_total(final(self).state_counts@) == final(self).scenes_seen,
            final(self).machine == old(self).machine,
            final(self).recovery == old(self).recovery,
            final(self).total_loops == old(self).total_loops,
            final(self).max_runtime_secs == old(self).max_runtime_secs,
    {
        let ghost before = self.state_counts@;
        let mut i: usize = 0;
        while i < self.state_counts.len()
            invariant
                i <= self.state_counts.len(),
                self.state_counts@ == before,
                before == old(self).state_counts@,
                forall|j: int| 0 <= j < i ==> before[j].0 != scene,
                self.scenes_seen == old(self).scenes_seen,
                old(self).scenes_seen < u64::MAX,
                counts_total(before) == old(self).scenes_seen,
                scenes_unique(before),
                self.machine == old(self).machine,
                self.recovery == old(self).recovery,
                self.total_loops == old(self).total_loops,
                self.max_runtime_secs == old(self).max_runtime_secs,
            decreases self.state_counts.len() - i,
        {
            if self.state_counts[i].0 == scene {
                assert(first_scene(before, scene, i as int));
                assert forall|k: int| first_scene(before, scene, k) implies k == i by {
                    if k > i {
                        assert(before[i as int].0 == scene);
                    }
                }
                proof {
                    lemma_entry_le_total(before, i as int);
                }
                let n = self.state_counts[i].1;
                self.state_counts.set(i, (scene, n + 1));
                self.scenes_seen = self.scenes_seen + 1;
                proof {
                    lemma_update_total(before, i as int, (scene, (n + 1) as u64));
                    lemma_count_keeps_unique(before, scene);
                }
                return ;
            }
            i = i + 1;
        }
        assert(!exists|k: int| first_scene(before, scene, k));
        self.state_counts.push((scene, 1));
        self.scenes_seen = self.scenes_seen + 1;
        proof {
            assert(self.state_counts@.drop_last() =~= before);
            lemma_count_keeps_unique(before, scene);
        }
    }
}

proof fn lemma_entry_le_total(counts: Seq<(u64, u64)>, i: int)
    requires
        0 <= i < counts.len(),
    ensures
        counts[i].1 <= counts_total(counts),
    decreases counts.len(),
{
    if i < counts.len() - 1 {
        lemma_entry_le_total(counts.drop_last(), i);
    }
}

proof fn lemma_update_total(counts: Seq<(u64, u64)>, i: int, e: (u64, u64))
    requires
        0 <= i < counts.len(),
    ensures
        counts_total(counts.update(i, e)) == counts_total(counts) - counts[i].1 + e.1,
    decreases counts.len(),
{
    let u = counts.update(i, e);
    if i == counts.len() - 1 {
        assert(u.drop_last() =~= counts.drop_last());
    } else {
        assert(u.drop_last() =~= counts.drop_last().update(i, e));
        lemma_update_total(counts.drop_last(), i, e);
    }
}

proof fn lemma_count_keeps_unique(counts: Seq<(u64, u64)>, scene: u64)
    requires
        scenes_unique(counts),
    ensures
        scenes_unique(count_scene(counts, scene)),
{
    let r = count_scene(counts, scene);
    if exists|i: int| first_scene(counts, scene, i) {
        let i = choose|i: int| first_scene(counts, scene, i);
        assert forall|a: int, b: int| 0 <= a < b < r.len() implies r[a].0 != r[b].0 by {
            if a == i {
                assert(counts[b].0 != counts[i].0);
            } else if b == i {
                assert(counts[a].0 != counts[i].0);
            }
        }
    } else {
        assert forall|a: int, b: int| 0 <= a < b < r.len() implies r[a].0 != r[b].0 by {
            if b == counts.len() && counts[a].0 == scene {
                lemma_first_scene_exists(counts, scene, a);
            }
        }
    }
}

proof fn lemma_first_scene_exists(counts: Seq<(u64, u64)>, scene: u64, k: int)
    requires
        0 <= k < counts.len(),
        counts[k].0 == scene,
    ensures
        exists|i: int| first_scene(counts, scene, i),
    decreases k,
{
    if forall|j: int| 0 <= j < k ==> counts[j].0 != scene {
        assert(first_scene(counts, scene, k));
    } else {
        let j = choose|j: int| 0 <= j < k && counts[j].0 == scene;
        lemma_first_scene_exists(counts, scene, j);
    }
}

/// Each sighting adds exactly one to the total of the counts (so the counts
/// of a run add up to the scenes it saw), and never adds a second entry for
/// a scene.
pub proof fn law_count_adds_one(counts: Seq<(u64, u64)>, scene: u64)
    requires
        scenes_unique(counts),
        counts_total(counts) < u64::MAX,
    ensures
        counts_total(count_scene(counts, scene)) == counts_total(counts) + 1,
        scenes_unique(count_scene(counts, scene)),
{
    if exists|i: int| first_scene(counts, scene, i) {
        let i = choose|i: int| first_scene(counts, scene, i);
        lemma_entry_le_total(counts, i);
        lemma_update_total(counts, i, (scene, (counts[i].1 + 1) as u64));
    } else {
        assert(count_scene(counts, scene).drop_last() =~= counts);
    }
    lemma_count_keeps_unique(counts, scene);
}

/// An unrecognised screen is never acted on. Unless a terminal scene ends
/// the run first, the fifth unrecognised screen in a row, or the first one
/// beyond the retry limit, ends it: recovery gives up.
pub proof fn law_unknown_never_acted_on(v: RunView, terminal: bool)
    requires
        v.track.streak < u32::MAX,
    ensures
        !(scene_decision_spec(v, UNKNOWN_SCENE, terminal) is Act),
        !(terminal && v.total_loops > 1) && (v.track.streak + 1 >= 5 || v.track.streak + 1 > v.max_retries)
            ==> scene_decision_spec(v, UNKNOWN_SCENE, terminal) == DecisionView::Finish(RunEnd::RecoveryGaveUp),
{
}

/// A recognised scene that is not terminal, or is terminal on the first
/// iteration, is always acted on.
pub proof fn law_known_scene_acted_on(v: RunView, scene: u64, terminal: bool)
    requires
        !is_unknown(scene),
        !terminal || v.total_loops <= 1,
    ensures
        scene_decision_spec(v, scene, terminal) == DecisionView::Act,
{
}

} // verus!
