//! Recovery when the screen stays unrecognised: wait first, then press the
//! back button, and give up after the retry limit.
use vstd::prelude::*;

verus! {

/// Retry limit of the default policy.
pub const DEFAULT_MAX_RETRIES: u32 = 5;

/// An input sent to the device: by recovery, or as a scene's actions.
#[derive(Debug, Clone, Copy, PartialEq, Eq)]
pub enum RecoveryInput {
    /// Wait this many milliseconds.
    Wait { ms: u64 },
    /// Tap at this screen position.
    Tap { x: u32, y: u32 },
}

/// What to do about an unrecognised screen.
#[derive(Debug, Clone, PartialEq, Eq)]
pub enum RecoveryAction {
    /// Nothing to recover.
    NoAction,
    /// Send these inputs, in order.
    Actions(Vec<RecoveryInput>),
    /// The retry limit is reached: give up.
    GiveUp,
}

/// The recovery for `streak` unrecognised screens in a row with retry limit
/// `max`: as plain values, `None` to give up, otherwise the inputs to send
/// (none when the streak is 0).
pub open spec fn recovery_spec(max: u32, streak: u32) -> Option<Seq<RecoveryInput>> {
    if streak > max {
        None
    } else if streak == 0 {
        Some(Seq::empty())
    } else if streak <= 2 {
        Some(seq![RecoveryInput::Wait { ms: 1000 }])
    } else if streak <= 4 {
        Some(seq![RecoveryInput::Wait { ms: 500 }, RecoveryInput::Tap { x: 50, y: 2300 }, RecoveryInput::Wait { ms: 1000 }])
    } else {
        None
    }
}

/// An action as plain values (see [`recovery_spec`]).
pub open spec fn action_view(a: RecoveryAction) -> Option<Seq<RecoveryInput>> {
    match a {
        RecoveryAction::NoAction => Some(Seq::empty()),
        RecoveryAction::Actions(v) => Some(v@),
        RecoveryAction::GiveUp => None,
    }
}

/// The recovery policy for unrecognised screens.
#[derive(Debug, Clone, Copy, PartialEq, Eq)]
pub struct RecoveryPolicy {
    max_retries: u32,
}

impl RecoveryPolicy {
    /// The retry limit.
    pub closed spec fn limit(&self) -> u32 {
        self.max_retries
    }

    /// A policy giving up beyond `max_retries` unrecognised screens.
    pub fn new(max_retries: u32) -> (p: RecoveryPolicy)
        ensures
            p.limit() == max_retries,
    {
        RecoveryPolicy { max_retries }
    }

    /// The retry limit.
    pub fn max_retries(&self) -> (r: u32)
        ensures
            r == self.limit(),
    {
        self.max_retries
    }

    /// The recovery after `unknown_streak` unrecognised screens in a row:
    /// nothing at 0, a one-second wait at 1 or 2, the back button (a short
    /// wait, a tap at the lower left, a wait) at 3 or 4, and giving up from 5
    /// on or beyond the retry limit.
    pub fn recover_actions(&self, unknown_streak: u32) -> (r: RecoveryAction)
        ensures
            action_view(r) == recovery_spec(self.limit(), unknown_streak),
            r is NoAction <==> recovery_spec(self.limit(), unknown_streak) == Some(Seq::<RecoveryInput>::empty()),
    {
        if unknown_streak > self.max_retries {
            return RecoveryAction::GiveUp;
        }
        if unknown_streak == 0 {
            RecoveryAction::NoAction
        } else if unknown_streak <= 2 {
            let v = vec![RecoveryInput::Wait { ms: 1000 }];
            assert(v@ =~= seq![RecoveryInput::Wait { ms: 1000 }]);
            RecoveryAction::Actions(v)
        } else if unknown_streak <= 4 {
            let v = vec![
                RecoveryInput::Wait { ms: 500 },
                RecoveryInput::Tap { x: 50, y: 2300 },
                RecoveryInput::Wait { ms: 1000 },
            ];
            assert(v@ =~= seq![
                RecoveryInput::Wait { ms: 500 },
                RecoveryInput::Tap { x: 50, y: 2300 },
                RecoveryInput::Wait { ms: 1000 },
            ]);
            RecoveryAction::Actions(v)
        } else {
            RecoveryAction::GiveUp
        }
    }
}

impl Default for RecoveryPolicy {
    fn default() -> (p: RecoveryPolicy)
        ensures
            p.limit() == DEFAULT_MAX_RETRIES,
    {
        RecoveryPolicy::new(DEFAULT_MAX_RETRIES)
    }
}

/// Recovery escalates and ends: once a policy gives up at some streak it
/// gives up at every longer streak, and from a streak of 5 it always gives
/// up, whatever the limit.
pub proof fn law_give_up_is_final(max: u32, streak: u32, later: u32)
    requires
        streak <= later,
        recovery_spec(max, streak) is None,
    ensures
        recovery_spec(max, later) is None,
{
}

/// From a streak of 5 on, every policy gives up.
pub proof fn law_give_up_from_five(max: u32, streak: u32)
    requires
        streak >= 5,
    ensures
        recovery_spec(max, streak) is None,
{
}

} // verus!
