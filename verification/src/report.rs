//! The fixed-layout controller report: its assembly from resolved logical
//! state and its byte-exact wire encoding.

use vstd::prelude::*;

use crate::config::BaseLogic;
use crate::curves::{
    cstick_bytes, spec_cstick_offsets, spec_dpad, spec_stick_offsets, spec_trigger_byte,
    stick_bytes, trigger_byte,
};
use crate::input::ButtonInputLogical;

verus! {

/// The report sent for each poll: button states, the two stick byte pairs
/// around the 128 center, and the two fixed-value trigger bytes.
#[derive(Clone, Copy, Debug, PartialEq, Eq, Structural)]
pub struct GamecubeInput {
    pub start: bool,
    pub a: bool,
    pub b: bool,
    pub x: bool,
    pub y: bool,
    pub z: bool,
    pub dpad_up: bool,
    pub dpad_down: bool,
    pub dpad_left: bool,
    pub dpad_right: bool,
    pub l_digital: bool,
    pub r_digital: bool,
    pub stick_x: u8,
    pub stick_y: u8,
    pub cstick_x: u8,
    pub cstick_y: u8,
    pub l_analog: u8,
    pub r_analog: u8,
}

/// The report the pipeline owes for a resolved logical state under the given
/// base-logic variant: face buttons and shoulders pass through, the sticks
/// come from the coordinate tables, and whenever a dpad axis is active the
/// c-stick byte on that axis is forced back to neutral.
pub open spec fn spec_build_report(logic: BaseLogic, l: ButtonInputLogical) -> GamecubeInput {
    let stick = spec_stick_offsets(logic, l);
    let cstick = spec_cstick_offsets(logic, l);
    let dpad = spec_dpad(logic, l);
    GamecubeInput {
        start: l.start,
        a: l.a,
        b: l.b,
        x: l.x,
        y: l.y,
        z: l.z,
        dpad_up: dpad.0,
        dpad_down: dpad.1,
        dpad_left: dpad.2,
        dpad_right: dpad.3,
        l_digital: l.l_digital,
        r_digital: l.r_digital,
        stick_x: (128 + stick.0) as u8,
        stick_y: (128 + stick.1) as u8,
        cstick_x: if dpad.2 || dpad.3 {
            128
        } else {
            (128 + cstick.0) as u8
        },
        cstick_y: if dpad.0 || dpad.1 {
            128
        } else {
            (128 + cstick.1) as u8
        },
        l_analog: spec_trigger_byte(l.l_analog),
        r_analog: spec_trigger_byte(l.r_analog),
    }
}

/// Assemble the report for a resolved logical state.
pub fn build_report(logic: &BaseLogic, l: &ButtonInputLogical) -> (r: GamecubeInput)
    ensures
        r == spec_build_report(*logic, *l),
{
    let stick = stick_bytes(logic, l);
    let cstick = cstick_bytes(logic, l);

    let both_mods = l.mod_x && l.mod_y;
    let (dpad_up, dpad_down, dpad_left, dpad_right) = match logic {
        BaseLogic::ProjectPlus => (
            (both_mods && l.cstick_up) || l.dpad_up,
            both_mods && l.cstick_down,
            both_mods && l.cstick_left,
            both_mods && l.cstick_right,
        ),
        BaseLogic::Rivals2 => (
            (both_mods && l.cstick_up) || l.dpad_up,
            (both_mods && l.cstick_down) || l.dpad_down,
            (both_mods && l.cstick_left) || l.dpad_left,
            (both_mods && l.cstick_right) || l.dpad_right,
        ),
    };

    // disable cstick when dpad in use
    let cstick_x = if dpad_left || dpad_right {
        128
    } else {
        cstick.0
    };
    let cstick_y = if dpad_up || dpad_down {
        128
    } else {
        cstick.1
    };

    GamecubeInput {
        start: l.start,
        a: l.a,
        b: l.b,
        x: l.x,
        y: l.y,
        z: l.z,
        dpad_up,
        dpad_down,
        dpad_left,
        dpad_right,
        l_digital: l.l_digital,
        r_digital: l.r_digital,
        stick_x: stick.0,
        stick_y: stick.1,
        cstick_x,
        cstick_y,
        l_analog: trigger_byte(l.l_analog),
        r_analog: trigger_byte(l.r_analog),
    }
}

impl GamecubeInput {
    /// The first button-bitfield byte of the wire encoding.
    pub open spec fn spec_buttons1(self) -> u8 {
        (if self.a {
            0x01u8
        } else {
            0u8
        }) | (if self.b {
            0x02u8
        } else {
            0u8
        }) | (if self.x {
            0x04u8
        } else {
            0u8
        }) | (if self.y {
            0x08u8
        } else {
            0u8
        }) | (if self.start {
            0x10u8
        } else {
            0u8
        })
    }

    /// The second button-bitfield byte of the wire encoding; its top bit is
    /// always set.
    pub open spec fn spec_buttons2(self) -> u8 {
        0x80u8 | (if self.dpad_left {
            0x01u8
        } else {
            0u8
        }) | (if self.dpad_right {
            0x02u8
        } else {
            0u8
        }) | (if self.dpad_down {
            0x04u8
        } else {
            0u8
        }) | (if self.dpad_up {
            0x08u8
        } else {
            0u8
        }) | (if self.z {
            0x10u8
        } else {
            0u8
        }) | (if self.l_digital {
            0x20u8
        } else {
            0u8
        }) | (if self.r_digital {
            0x40u8
        } else {
            0u8
        })
    }

    /// Encode this report as the eight wire bytes: the two button bitfields,
    /// the four stick bytes, and the two trigger bytes, in that order.
    pub fn create_report(&self) -> (r: [u8; 8])
        ensures
            r@ == seq![
                self.spec_buttons1(),
                self.spec_buttons2(),
                self.stick_x,
                self.stick_y,
                self.cstick_x,
                self.cstick_y,
                self.l_analog,
                self.r_analog,
            ],
    {
        let buttons1 = (if self.a {
            0x01u8
        } else {
            0u8
        }) | (if self.b {
            0x02u8
        } else {
            0u8
        }) | (if self.x {
            0x04u8
        } else {
            0u8
        }) | (if self.y {
            0x08u8
        } else {
            0u8
        }) | (if self.start {
            0x10u8
        } else {
            0u8
        });

        let buttons2 = 0x80u8 | (if self.dpad_left {
            0x01u8
        } else {
            0u8
        }) | (if self.dpad_right {
            0x02u8
        } else {
            0u8
        }) | (if self.dpad_down {
            0x04u8
        } else {
            0u8
        }) | (if self.dpad_up {
            0x08u8
        } else {
            0u8
        }) | (if self.z {
            0x10u8
        } else {
            0u8
        }) | (if self.l_digital {
            0x20u8
        } else {
            0u8
        }) | (if self.r_digital {
            0x40u8
        } else {
            0u8
        });

        let r: [u8; 8] = [
            buttons1,
            buttons2,
            self.stick_x,
            self.stick_y,
            self.cstick_x,
            self.cstick_y,
            self.l_analog,
            self.r_analog,
        ];
        proof {
            assert(r@ =~= seq![
                self.spec_buttons1(),
                self.spec_buttons2(),
                self.stick_x,
                self.stick_y,
                self.cstick_x,
                self.cstick_y,
                self.l_analog,
                self.r_analog,
            ]);
        }
        r
    }
}

} // verus!
