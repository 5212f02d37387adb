//! Tracks the recognised scene from screenshot to screenshot: the current
//! scene, the scenes left behind (newest last, at most ten), and how many
//! screenshots in a row were not recognised.
//!
//! A scene is a code that the caller gives each recognised screen; equal
//! screens get equal codes, and [`UNKNOWN_SCENE`] stands for a screen that
//! was not recognised.
use vstd::prelude::*;

verus! {

/// The code of an unrecognised screen.
pub const UNKNOWN_SCENE: u64 = 0;

/// How many scenes left behind a machine remembers.
pub const MAX_HISTORY: usize = 10;

/// Whether `scene` is the unrecognised screen.
pub open spec fn is_unknown(scene: u64) -> bool {
    scene == UNKNOWN_SCENE
}

/// A machine as plain values.
pub struct SceneTrack {
    /// The current scene.
    pub current: u64,
    /// The scenes left behind, oldest first.
    pub history: Seq<u64>,
    /// Unrecognised screens in a row.
    pub streak: nat,
}

/// The newest `max` items of `h`.
pub open spec fn keep_newest(h: Seq<u64>, max: nat) -> Seq<u64> {
    if h.len() > max {
        h.skip(h.len() - max)
    } else {
        h
    }
}

/// One transition to `scene`: a new scene pushes the one left behind onto
/// the history (keeping the newest ten), and the streak counts unrecognised
/// screens in a row.
pub open spec fn step_spec(t: SceneTrack, scene: u64) -> SceneTrack {
    SceneTrack {
        current: scene,
        history: if scene != t.current {
            keep_newest(t.history.push(t.current), MAX_HISTORY as nat)
        } else {
            t.history
        },
        streak: if is_unknown(scene) {
            t.streak + 1
        } else {
            0
        },
    }
}

/// The transitions to `scenes`, in order.
pub open spec fn run_spec(t: SceneTrack, scenes: Seq<u64>) -> SceneTrack
    decreases scenes.len(),
{
    if scenes.len() == 0 {
        t
    } else {
        step_spec(run_spec(t, scenes.drop_last()), scenes.last())
    }
}

/// How many of the last items of `scenes` are unrecognised screens.
pub open spec fn trailing_unknowns(scenes: Seq<u64>) -> nat
    decreases scenes.len(),
{
    if scenes.len() == 0 {
        0
    } else if is_unknown(scenes.last()) {
        trailing_unknowns(scenes.drop_last()) + 1
    } else {
        0
    }
}

/// Whether the last four scenes of `h` are one and the same.
pub open spec fn looping_spec(h: Seq<u64>) -> bool {
    h.len() >= 4 && forall|i: int| h.len() - 4 <= i < h.len() ==> #[trigger] h[i] == h.last()
}

/// The scene tracker.
pub struct GameStateMachine {
    current: u64,
    history: Vec<u64>,
    max_history: usize,
    unknown_streak: u32,
}

impl GameStateMachine {
    /// The machine as plain values.
    pub closed spec fn track(&self) -> SceneTrack {
        SceneTrack { current: self.current, history: self.history@, streak: self.unknown_streak as nat }
    }

    /// The history holds at most ten scenes.
    pub closed spec fn wf(&self) -> bool {
        self.max_history == MAX_HISTORY && self.history.len() <= MAX_HISTORY
    }

    /// A machine at `initial_state`, with no history and no streak.
    pub fn new(initial_state: u64) -> (m: GameStateMachine)
        ensures
            m.wf(),
            no_repeats(m.track()),
            m.track() == (SceneTrack { current: initial_state, history: Seq::empty(), streak: 0 }),
    {
        GameStateMachine { current: initial_state, history: Vec::new(), max_history: MAX_HISTORY, unknown_streak: 0 }
    }

    /// Moves to `new_state` and returns it.
    pub fn transition(&mut self, new_state: u64) -> (s: u64)
        requires
            old(self).wf(),
            is_unknown(new_state) ==> old(self).track().streak < u32::MAX,
        ensures
            final(self).wf(),
            final(self).track() == step_spec(old(self).track(), new_state),
            s == new_state,
    {
        if new_state != self.current {
            let old_state = self.current;
            self.current = new_state;
            self.push_history(old_state);
        }
        if self.current == UNKNOWN_SCENE {
            self.unknown_streak = self.unknown_streak + 1;
        } else {
            self.unknown_streak = 0;
        }
        self.current
    }

    /// The current scene.
    pub fn current(&self) -> (s: u64)
        ensures
            s == self.track().current,
    {
        self.current
    }

    /// How many screenshots in a row were not recognised.
    pub fn unknown_streak(&self) -> (n: u32)
        ensures
            n == self.track().streak,
    {
        self.unknown_streak
    }

    /// The scenes left behind, oldest first.
    pub fn history(&self) -> (h: &[u64])
        ensures
            h@ == self.track().history,
    {
        self.history.as_slice()
    }

    /// Whether the last four scenes left behind are all the same.
    pub fn is_looping(&self) -> (b: bool)
        ensures
            b == looping_spec(self.track().history),
    {
        let n = self.history.len();
        if n < 4 {
            return false;
        }
        let last = self.history[n - 1];
        let mut i: usize = n - 4;
        while i < n
            invariant
                n == self.history.len(),
                n >= 4,
                n - 4 <= i <= n,
                last == self.history@.last(),
                forall|j: int| n - 4 <= j < i ==> #[trigger] self.history@[j] == last,
            decreases n - i,
        {
            if self.history[i] != last {
                return false;
            }
            i = i + 1;
        }
        true
    }

    fn push_history(&mut self, state: u64)
        requires
            old(self).wf(),
        ensures
            final(self).wf(),
            final(self).history@ == keep_newest(old(self).history@.push(state), MAX_HISTORY as nat),
            final(self).current == old(self).current,
            final(self).unknown_streak == old(self).unknown_streak,
    {
        let ghost pushed = self.history@.push(state);
        self.history.push(state);
        if self.history.len() > self.max_history {
            self.history.remove(0);
            assert(self.history@ =~= pushed.skip(pushed.len() - MAX_HISTORY as nat));
        }
    }
}

/// The streak counts the unrecognised screens at the end of any run of
/// transitions, and adds to the earlier streak when the whole run was
/// unrecognised.
pub proof fn law_streak_counts_trailing_unknowns(t: SceneTrack, scenes: Seq<u64>)
    ensures
        run_spec(t, scenes).streak == if trailing_unknowns(scenes) == scenes.len() {
            t.streak + scenes.len()
        } else {
            trailing_unknowns(scenes)
        },
    decreases scenes.len(),
{
    if scenes.len() > 0 {
        law_streak_counts_trailing_unknowns(t, scenes.drop_last());
        lemma_trailing_le(scenes.drop_last());
    }
}

proof fn lemma_trailing_le(scenes: Seq<u64>)
    ensures
        trailing_unknowns(scenes) <= scenes.len(),
    decreases scenes.len(),
{
    if scenes.len() > 0 {
        lemma_trailing_le(scenes.drop_last());
    }
}

/// Whatever the scenes, the history never holds more than ten of them, and
/// the machine ends at the last scene it was given.
pub proof fn law_history_bounded(t: SceneTrack, scenes: Seq<u64>)
    requires
        t.history.len() <= MAX_HISTORY,
    ensures
        run_spec(t, scenes).history.len() <= MAX_HISTORY,
        scenes.len() > 0 ==> run_spec(t, scenes).current == scenes.last(),
    decreases scenes.len(),
{
    if scenes.len() > 0 {
        law_history_bounded(t, scenes.drop_last());
    }
}

/// Seeing the same scene again leaves the history as it was; moving to
/// another scene appends the one left behind as the newest entry.
pub proof fn law_history_records_changes(t: SceneTrack, scene: u64)
    requires
        t.history.len() <= MAX_HISTORY,
    ensures
        scene == t.current ==> step_spec(t, scene).history == t.history,
        scene != t.current ==> step_spec(t, scene).history.last() == t.current,
        scene != t.current ==> step_spec(t, scene).history.len() == if t.history.len() < MAX_HISTORY {
            t.history.len() + 1
        } else {
            MAX_HISTORY as nat
        },
{
}


/// No scene follows itself: adjacent entries of the history differ, and the
/// newest entry differs from the current scene.
pub open spec fn no_repeats(t: SceneTrack) -> bool {
    &&& forall|i: int| 0 <= i < t.history.len() - 1 ==> #[trigger] t.history[i] != t.history[i + 1]
    &&& t.history.len() > 0 ==> t.history.last() != t.current
}

/// A scene is recorded only when the machine leaves it for another, so no
/// scene follows itself in the history, whatever the transitions.
pub proof fn law_no_scene_follows_itself(t: SceneTrack, scene: u64)
    requires
        no_repeats(t),
    ensures
        no_repeats(step_spec(t, scene)),
{
    let h = t.history.push(t.current);
    assert forall|i: int| 0 <= i < h.len() - 1 implies #[trigger] h[i] != h[i + 1] by {
        if i + 1 < t.history.len() {
            assert(h[i] == t.history[i] && h[i + 1] == t.history[i + 1]);
        } else {
            assert(h[i + 1] == t.current);
        }
    }
    if h.len() > MAX_HISTORY {
        let k = h.skip(h.len() - MAX_HISTORY as nat);
        assert forall|i: int| 0 <= i < k.len() - 1 implies #[trigger] k[i] != k[i + 1] by {
            let d = h.len() - MAX_HISTORY;
            assert(k[i] == h[i + d] && k[i + 1] == h[i + 1 + d]);
        }
    }
}

/// Hence the loop check never fires on a machine that only moved by
/// transitions: four equal scenes in a row never reach the history.
pub proof fn law_never_looping(t: SceneTrack)
    requires
        no_repeats(t),
    ensures
        !looping_spec(t.history),
{
    if looping_spec(t.history) {
        let n = t.history.len() as int;
        assert(t.history[n - 2] == t.history.last());
        assert(t.history[n - 2] != t.history[n - 1]);
    }
}


/// Over any run of transitions from a machine where no scene follows itself
/// (a new machine, for one), the loop check stays false.
pub proof fn law_runs_never_loop(t: SceneTrack, scenes: Seq<u64>)
    requires
        no_repeats(t),
    ensures
        no_repeats(run_spec(t, scenes)),
        !looping_spec(run_spec(t, scenes).history),
    decreases scenes.len(),
{
    if scenes.len() > 0 {
        law_runs_never_loop(t, scenes.drop_last());
        law_no_scene_follows_itself(run_spec(t, scenes.drop_last()), scenes.last());
    }
    law_never_looping(run_spec(t, scenes));
}

} // verus!
