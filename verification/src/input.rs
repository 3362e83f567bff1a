//! Raw physical switch samples and their translation, through a profile's
//! mapping table, into the logical button state the pipeline works on.

use vstd::prelude::*;

use crate::config::{LogicalButtonToPhysicalButton, PhysicalButton};

verus! {

/// One cycle's sample of every physical switch: `true` means pressed.
#[derive(Clone, Copy, Debug, PartialEq, Eq, Structural)]
pub struct ButtonInputResults {
    pub left_pinky: bool,
    pub left_ring: bool,
    pub left_middle: bool,
    pub left_index: bool,

    pub left_middle_2: bool,

    pub left_thumb_left: bool,
    pub left_thumb_right: bool,

    pub right_index: bool,
    pub right_middle: bool,
    pub right_ring: bool,
    pub right_pinky: bool,

    pub right_index_2: bool,
    pub right_middle_2: bool,
    pub right_ring_2: bool,
    pub right_pinky_2: bool,

    pub right_thumb_left: bool,
    pub right_thumb_right: bool,
    pub right_thumb_up: bool,
    pub right_thumb_down: bool,
    pub right_thumb_middle: bool,

    pub start: bool,
}

/// The logical button state of one cycle, after the mapping table has been
/// applied but before any opposing-direction resolution.
#[derive(Clone, Copy, Debug, PartialEq, Eq, Structural)]
pub struct ButtonInputLogical {
    pub mod_x: bool,
    pub mod_y: bool,

    pub start: bool,
    pub a: bool,
    pub b: bool,
    pub x: bool,
    pub y: bool,
    pub z: bool,

    pub dpad_up: bool,
    pub dpad_down: bool,
    pub dpad_left: bool,
    pub dpad_right: bool,

    pub l_digital: bool,
    pub r_digital: bool,
    pub l_analog: bool,
    pub r_analog: bool,

    pub stick_left: bool,
    pub stick_right: bool,
    pub stick_up: bool,
    pub stick_down: bool,

    pub cstick_left: bool,
    pub cstick_right: bool,
    pub cstick_up: bool,
    pub cstick_down: bool,
}

impl ButtonInputResults {
    /// Whether the given physical switch reads pressed in this sample; the
    /// `Unmapped` sentinel always reads released.
    pub open spec fn spec_button_value(self, button: PhysicalButton) -> bool {
        match button {
            PhysicalButton::Start => self.start,
            PhysicalButton::LeftPinky => self.left_pinky,
            PhysicalButton::LeftRing => self.left_ring,
            PhysicalButton::LeftMiddle => self.left_middle,
            PhysicalButton::LeftIndex => self.left_index,
            PhysicalButton::LeftMiddle2 => self.left_middle_2,
            PhysicalButton::LeftThumbLeft => self.left_thumb_left,
            PhysicalButton::LeftThumbRight => self.left_thumb_right,
            PhysicalButton::RightIndex => self.right_index,
            PhysicalButton::RightMiddle => self.right_middle,
            PhysicalButton::RightRing => self.right_ring,
            PhysicalButton::RightPinky => self.right_pinky,
            PhysicalButton::RightIndex2 => self.right_index_2,
            PhysicalButton::RightMiddle2 => self.right_middle_2,
            PhysicalButton::RightRing2 => self.right_ring_2,
            PhysicalButton::RightPinky2 => self.right_pinky_2,
            PhysicalButton::RightThumbLeft => self.right_thumb_left,
            PhysicalButton::RightThumbRight => self.right_thumb_right,
            PhysicalButton::RightThumbUp => self.right_thumb_up,
            PhysicalButton::RightThumbDown => self.right_thumb_down,
            PhysicalButton::RightThumbMiddle => self.right_thumb_middle,
            PhysicalButton::Unmapped => false,
        }
    }

    /// The logical state this sample maps to under the given table: every
    /// logical function reads the one switch it is mapped to, except
    /// stick-up, which is the OR of its two slots.
    pub open spec fn spec_to_gc(self, map: LogicalButtonToPhysicalButton) -> ButtonInputLogical {
        ButtonInputLogical {
            mod_x: self.spec_button_value(map.mod_x),
            mod_y: self.spec_button_value(map.mod_y),
            start: self.spec_button_value(map.start),
            a: self.spec_button_value(map.a),
            b: self.spec_button_value(map.b),
            x: self.spec_button_value(map.x),
            y: self.spec_button_value(map.y),
            z: self.spec_button_value(map.z),
            dpad_up: self.spec_button_value(map.dpad_up),
            dpad_down: self.spec_button_value(map.dpad_down),
            dpad_left: self.spec_button_value(map.dpad_left),
            dpad_right: self.spec_button_value(map.dpad_right),
            l_digital: self.spec_button_value(map.l_digital),
            r_digital: self.spec_button_value(map.r_digital),
            l_analog: self.spec_button_value(map.l_analog),
            r_analog: self.spec_button_value(map.r_analog),
            stick_left: self.spec_button_value(map.stick_left),
            stick_right: self.spec_button_value(map.stick_right),
            stick_up: self.spec_button_value(map.stick_up) || self.spec_button_value(
                map.stick_up2,
            ),
            stick_down: self.spec_button_value(map.stick_down),
            cstick_left: self.spec_button_value(map.cstick_left),
            cstick_right: self.spec_button_value(map.cstick_right),
            cstick_up: self.spec_button_value(map.cstick_up),
            cstick_down: self.spec_button_value(map.cstick_down),
        }
    }

    /// Read the pressed state of one physical switch out of this sample.
    pub fn get_button_value(&self, button: PhysicalButton) -> (r: bool)
        ensures
            r == self.spec_button_value(button),
    {
        match button {
            PhysicalButton::Start => self.start,
            PhysicalButton::LeftPinky => self.left_pinky,
            PhysicalButton::LeftRing => self.left_ring,
            PhysicalButton::LeftMiddle => self.left_middle,
            PhysicalButton::LeftIndex => self.left_index,
            PhysicalButton::LeftMiddle2 => self.left_middle_2,
            PhysicalButton::LeftThumbLeft => self.left_thumb_left,
            PhysicalButton::LeftThumbRight => self.left_thumb_right,
            PhysicalButton::RightIndex => self.right_index,
            PhysicalButton::RightMiddle => self.right_middle,
            PhysicalButton::RightRing => self.right_ring,
            PhysicalButton::RightPinky => self.right_pinky,
            PhysicalButton::RightIndex2 => self.right_index_2,
            PhysicalButton::RightMiddle2 => self.right_middle_2,
            PhysicalButton::RightRing2 => self.right_ring_2,
            PhysicalButton::RightPinky2 => self.right_pinky_2,
            PhysicalButton::RightThumbLeft => self.right_thumb_left,
            PhysicalButton::RightThumbRight => self.right_thumb_right,
            PhysicalButton::RightThumbUp => self.right_thumb_up,
            PhysicalButton::RightThumbDown => self.right_thumb_down,
            PhysicalButton::RightThumbMiddle => self.right_thumb_middle,
            PhysicalButton::Unmapped => false,
        }
    }

    /// Translate this sample into logical button state under the given
    /// mapping table.
    pub fn to_gc(&self, map: &LogicalButtonToPhysicalButton) -> (r: ButtonInputLogical)
        ensures
            r == self.spec_to_gc(*map),
    {
        ButtonInputLogical {
            mod_x: self.get_button_value(map.mod_x),
            mod_y: self.get_button_value(map.mod_y),
            start: self.get_button_value(map.start),
            a: self.get_button_value(map.a),
            b: self.get_button_value(map.b),
            x: self.get_button_value(map.x),
            y: self.get_button_value(map.y),
            z: self.get_button_value(map.z),
            dpad_up: self.get_button_value(map.dpad_up),
            dpad_down: self.get_button_value(map.dpad_down),
            dpad_left: self.get_button_value(map.dpad_left),
            dpad_right: self.get_button_value(map.dpad_right),
            l_digital: self.get_button_value(map.l_digital),
            r_digital: self.get_button_value(map.r_digital),
            l_analog: self.get_button_value(map.l_analog),
            r_analog: self.get_button_value(map.r_analog),
            stick_left: self.get_button_value(map.stick_left),
            stick_right: self.get_button_value(map.stick_right),
            stick_up: self.get_button_value(map.stick_up) || self.get_button_value(map.stick_up2),
            stick_down: self.get_button_value(map.stick_down),
            cstick_left: self.get_button_value(map.cstick_left),
            cstick_right: self.get_button_value(map.cstick_right),
            cstick_up: self.get_button_value(map.cstick_up),
            cstick_down: self.get_button_value(map.cstick_down),
        }
    }
}

} // verus!
