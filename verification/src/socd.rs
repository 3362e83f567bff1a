//! Resolution of simultaneous opposing cardinal directions (SOCD): when both
//! sides of an axis are pressed at once, a policy decides which side, if any,
//! the console sees.

use vstd::prelude::*;

verus! {

/// Per-axis press history, latched only while the two sides of the axis are
/// not simultaneously pressed.  One pair of fields per independent axis:
/// stick X, stick Y, c-stick X, c-stick Y.
#[derive(Clone, Copy, Debug, PartialEq, Eq, Structural)]
pub struct SocdState {
    pub prev_up: bool,
    pub prev_down: bool,
    pub prev_left: bool,
    pub prev_right: bool,
    pub prev_cstick_up: bool,
    pub prev_cstick_down: bool,
    pub prev_cstick_left: bool,
    pub prev_cstick_right: bool,
}

impl SocdState {
    /// The neutral history: no side of any axis latched.
    pub open spec fn spec_neutral() -> SocdState {
        SocdState {
            prev_up: false,
            prev_down: false,
            prev_left: false,
            prev_right: false,
            prev_cstick_up: false,
            prev_cstick_down: false,
            prev_cstick_left: false,
            prev_cstick_right: false,
        }
    }
}

impl Default for SocdState {
    /// A fresh history starts neutral.
    fn default() -> (s: SocdState)
        ensures
            s == SocdState::spec_neutral(),
    {
        SocdState {
            prev_up: false,
            prev_down: false,
            prev_left: false,
            prev_right: false,
            prev_cstick_up: false,
            prev_cstick_down: false,
            prev_cstick_left: false,
            prev_cstick_right: false,
        }
    }
}

/// The opposing-direction resolution policy of the active profile.
#[derive(Clone, Copy, Debug, PartialEq, Eq, Structural)]
pub enum SocdType {
    SecondInputPriority,
    Neutral,
}

/// What `SocdType::resolve` returns for one axis, as a function of the two
/// pressed sides and the latched history of that axis.
///
/// Under `SecondInputPriority` a conflict resolves against the side that was
/// last latched as the sole pressed side; if neither side is latched the tie
/// breaks in favor of the first (negative) side.  Under `Neutral` a conflict
/// cancels both sides.  Without a conflict the inputs pass through unchanged.
pub open spec fn spec_resolve(
    ty: SocdType,
    input1: bool,
    input2: bool,
    prev1: bool,
    prev2: bool,
) -> (bool, bool) {
    match ty {
        SocdType::SecondInputPriority => {
            if input1 && input2 {
                if prev1 {
                    (false, true)
                } else {
                    (true, false)
                }
            } else {
                (input1, input2)
            }
        }
        SocdType::Neutral => {
            if input1 && input2 {
                (false, false)
            } else {
                (input1, input2)
            }
        }
    }
}

/// The latched history of the axis after one resolution step: under
/// `SecondInputPriority` it follows the inputs whenever they do not conflict
/// and is left untouched during a conflict; under `Neutral` no history is
/// kept at all.
pub open spec fn spec_latch_after(
    ty: SocdType,
    input1: bool,
    input2: bool,
    prev1: bool,
    prev2: bool,
) -> (bool, bool) {
    match ty {
        SocdType::SecondInputPriority => {
            if input1 && input2 {
                (prev1, prev2)
            } else {
                (input1, input2)
            }
        }
        SocdType::Neutral => (prev1, prev2),
    }
}

impl SocdType {
    /// Resolve one axis: `input1` and `input2` are the two opposing sides as
    /// sampled, `prev_input1` and `prev_input2` the axis's latched history.
    pub fn resolve(
        &self,
        input1: bool,
        input2: bool,
        prev_input1: &mut bool,
        prev_input2: &mut bool,
    ) -> (r: (bool, bool))
        ensures
            r == spec_resolve(*self, input1, input2, *old(prev_input1), *old(prev_input2)),
            (*final(prev_input1), *final(prev_input2)) == spec_latch_after(
                *self,
                input1,
                input2,
                *old(prev_input1),
                *old(prev_input2),
            ),
    {
        match self {
            SocdType::SecondInputPriority => {
                if input1 && input2 {
                    if *prev_input1 {
                        // pick input2
                        (false, true)
                    } else if *prev_input2 {
                        // pick input1
                        (true, false)
                    } else {
                        // tie break, just pick input1
                        (true, false)
                    }
                } else {
                    *prev_input1 = input1;
                    *prev_input2 = input2;
                    (input1, input2)
                }
            }
            SocdType::Neutral => {
                if input1 && input2 {
                    (false, false)
                } else {
                    (input1, input2)
                }
            }
        }
    }
}

/// Under the `Neutral` policy a conflict always cancels: when both sides of
/// an axis are pressed, both resolve to released, whatever history the axis
/// carries.
pub proof fn lemma_neutral_conflict_cancels(prev1: bool, prev2: bool)
    ensures
        spec_resolve(SocdType::Neutral, true, true, prev1, prev2) == (false, false),
        spec_latch_after(SocdType::Neutral, true, true, prev1, prev2) == (prev1, prev2),
{
}

/// Under `SecondInputPriority`, a conflict resolves to exactly one side, and
/// it resolves to the positive side exactly when the negative side was the
/// latched sole press; the history itself is untouched by the conflict.
pub proof fn lemma_second_input_priority_conflict(prev1: bool, prev2: bool)
    ensures
        spec_resolve(SocdType::SecondInputPriority, true, true, prev1, prev2) == (
            if prev1 {
                (false, true)
            } else {
                (true, false)
            }
        ),
        spec_latch_after(SocdType::SecondInputPriority, true, true, prev1, prev2) == (
            prev1,
            prev2,
        ),
{
}

} // verus!
