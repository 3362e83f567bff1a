//! Stick-coordinate derivation: pure tables from resolved logical direction
//! and modifier state to signed axis offsets, one table per base-logic
//! variant, plus the c-stick, trigger and dpad derivations.

use vstd::prelude::*;

use crate::config::BaseLogic;
use crate::input::ButtonInputLogical;

verus! {

/// The sign of an axis from its resolved opposing pair: -1 when only the
/// negative side is pressed, 1 when only the positive side is, 0 otherwise.
pub open spec fn spec_direction(negative: bool, positive: bool) -> int {
    if negative && !positive {
        -1
    } else if positive && !negative {
        1
    } else {
        0
    }
}

fn axis_direction(negative: bool, positive: bool) -> (d: i16)
    ensures
        d as int == spec_direction(negative, positive),
{
    match (negative, positive) {
        (true, false) => -1,
        (false, true) => 1,
        _ => 0,
    }
}

/// The main-stick offset pair under the ProjectPlus tables, before the 128
/// center is added.  `l` must already be resolved for opposing directions.
pub open spec fn spec_project_plus_offsets(l: ButtonInputLogical) -> (int, int) {
    let horizontal = l.stick_left || l.stick_right;
    let vertical = l.stick_up || l.stick_down;
    let diagonal = horizontal && vertical;
    let x_dir = spec_direction(l.stick_left, l.stick_right);
    let y_dir = spec_direction(l.stick_down, l.stick_up);
    if l.mod_x {
        if diagonal {
            if l.cstick_right {
                (x_dir * 72, y_dir * 61)
            } else if l.cstick_left {
                (x_dir * 84, y_dir * 50)
            } else if l.cstick_down {
                (x_dir * 82, y_dir * 36)
            } else if l.cstick_up {
                (x_dir * 77, y_dir * 55)
            } else if l.r_digital || l.l_digital {
                (x_dir * 82, y_dir * 35)
            } else if l.b {
                (x_dir * 85, y_dir * 31)
            } else {
                (x_dir * 70, y_dir * 34)
            }
        } else if vertical {
            (0, y_dir * 60)
        } else if horizontal {
            (x_dir * 70, 0)
        } else {
            (0, 0)
        }
    } else if l.mod_y {
        if diagonal {
            if l.cstick_right {
                (x_dir * 62, y_dir * 72)
            } else if l.cstick_left {
                (x_dir * 40, y_dir * 84)
            } else if l.cstick_down {
                (x_dir * 34, y_dir * 82)
            } else if l.cstick_up {
                (x_dir * 55, y_dir * 77)
            } else if l.r_digital || l.l_digital {
                (x_dir * 51, y_dir * 82)
            } else if l.b {
                (x_dir * 28, y_dir * 85)
            } else {
                (x_dir * 28, y_dir * 58)
            }
        } else if vertical {
            (0, y_dir * 70)
        } else if horizontal {
            (x_dir * 35, 0)
        } else {
            (0, 0)
        }
    } else if diagonal && l.stick_up {
        (x_dir * 83, y_dir * 93)
    } else {
        (x_dir * 100, y_dir * 100)
    }
}

/// The main-stick offset pair under the Rivals2 tables, before the 128
/// center is added.  `l` must already be resolved for opposing directions.
pub open spec fn spec_rivals2_offsets(l: ButtonInputLogical) -> (int, int) {
    let horizontal = l.stick_left || l.stick_right;
    let vertical = l.stick_up || l.stick_down;
    let diagonal = horizontal && vertical;
    let shield = l.l_digital || l.r_digital;
    let x_dir = spec_direction(l.stick_left, l.stick_right);
    let y_dir = spec_direction(l.stick_down, l.stick_up);
    if l.mod_x {
        if diagonal && !shield {
            if l.a {
                (x_dir * 69, y_dir * 53)
            } else if l.z {
                (x_dir * 53, y_dir * 42)
            } else if l.b {
                (x_dir * 123, y_dir * 51)
            } else {
                (x_dir * 68, y_dir * 42)
            }
        } else if diagonal && shield {
            (x_dir * 76, y_dir * 42)
        } else if vertical {
            (0, y_dir * 53)
        } else if horizontal {
            (x_dir * 76, 0)
        } else {
            (0, 0)
        }
    } else if l.mod_y {
        if diagonal && !shield {
            if l.z {
                (x_dir * 42, y_dir * 53)
            } else if l.b {
                (x_dir * 51, y_dir * 123)
            } else {
                (x_dir * 42, y_dir * 68)
            }
        } else if vertical {
            (0, y_dir * 90)
        } else if horizontal {
            (x_dir * 53, 0)
        } else {
            (0, 0)
        }
    } else if diagonal && shield {
        (x_dir * 92, y_dir * 92)
    } else if diagonal && !shield {
        (x_dir * 92, y_dir * 96)
    } else {
        (x_dir * 127, y_dir * 127)
    }
}

/// The main-stick offset pair of the active base-logic variant.
pub open spec fn spec_stick_offsets(logic: BaseLogic, l: ButtonInputLogical) -> (int, int) {
    match logic {
        BaseLogic::ProjectPlus => spec_project_plus_offsets(l),
        BaseLogic::Rivals2 => spec_rivals2_offsets(l),
    }
}

/// The c-stick offset pair: an angled pair when ModX is held with a
/// horizontal c-stick component, full deflection otherwise, with the full
/// magnitude set by the base-logic variant.
pub open spec fn spec_cstick_offsets(logic: BaseLogic, l: ButtonInputLogical) -> (int, int) {
    let full: int = match logic {
        BaseLogic::ProjectPlus => 100,
        BaseLogic::Rivals2 => 127,
    };
    let cx_dir = spec_direction(l.cstick_left, l.cstick_right);
    let cy_dir = spec_direction(l.cstick_down, l.cstick_up);
    let y_dir = spec_direction(l.stick_down, l.stick_up);
    if l.mod_x && (l.cstick_left || l.cstick_right) {
        (cx_dir * 65, y_dir * 23)
    } else {
        (cx_dir * full, cy_dir * full)
    }
}

/// Every stick offset the tables can produce stays within [-127, 127], so
/// every derived stick byte stays within [1, 255] around the 128 center.
pub proof fn lemma_stick_offsets_bounded(logic: BaseLogic, l: ButtonInputLogical)
    ensures
        -127 <= spec_stick_offsets(logic, l).0 <= 127,
        -127 <= spec_stick_offsets(logic, l).1 <= 127,
        -127 <= spec_cstick_offsets(logic, l).0 <= 127,
        -127 <= spec_cstick_offsets(logic, l).1 <= 127,
{
}

/// The dpad state: with both modifiers held the c-stick directions double as
/// dpad presses; the Rivals2 variant additionally reads the native dpad
/// logical buttons, the ProjectPlus variant only the up one.
pub open spec fn spec_dpad(logic: BaseLogic, l: ButtonInputLogical) -> (bool, bool, bool, bool) {
    let both_mods = l.mod_x && l.mod_y;
    match logic {
        BaseLogic::ProjectPlus => (
            (both_mods && l.cstick_up) || l.dpad_up,
            both_mods && l.cstick_down,
            both_mods && l.cstick_left,
            both_mods && l.cstick_right,
        ),
        BaseLogic::Rivals2 => (
            (both_mods && l.cstick_up) || l.dpad_up,
            (both_mods && l.cstick_down) || l.dpad_down,
            (both_mods && l.cstick_left) || l.dpad_left,
            (both_mods && l.cstick_right) || l.dpad_right,
        ),
    }
}

/// An analog trigger reads a single fixed nonzero value when its logical
/// button is held; true pressure is never modeled.
pub open spec fn spec_trigger_byte(pressed: bool) -> u8 {
    if pressed {
        49
    } else {
        0
    }
}

/// The two main-stick bytes of the active variant: the table offset applied
/// to the 128 center.
pub fn stick_bytes(logic: &BaseLogic, l: &ButtonInputLogical) -> (r: (u8, u8))
    ensures
        r.0 as int == 128 + spec_stick_offsets(*logic, *l).0,
        r.1 as int == 128 + spec_stick_offsets(*logic, *l).1,
{
    let horizontal = l.stick_left || l.stick_right;
    let vertical = l.stick_up || l.stick_down;
    let diagonal = horizontal && vertical;
    let x_dir = axis_direction(l.stick_left, l.stick_right);
    let y_dir = axis_direction(l.stick_down, l.stick_up);
    let offsets: (i16, i16) = match logic {
        BaseLogic::ProjectPlus => {
            if l.mod_x {
                if diagonal {
                    if l.cstick_right {
                        (x_dir * 72, y_dir * 61)
                    } else if l.cstick_left {
                        (x_dir * 84, y_dir * 50)
                    } else if l.cstick_down {
                        (x_dir * 82, y_dir * 36)
                    } else if l.cstick_up {
                        (x_dir * 77, y_dir * 55)
                    } else if l.r_digital || l.l_digital {
                        (x_dir * 82, y_dir * 35)
                    } else if l.b {
                        (x_dir * 85, y_dir * 31)
                    } else {
                        (x_dir * 70, y_dir * 34)
                    }
                } else if vertical {
                    (0, y_dir * 60)
                } else if horizontal {
                    (x_dir * 70, 0)
                } else {
                    (0, 0)
                }
            } else if l.mod_y {
                if diagonal {
                    if l.cstick_right {
                        (x_dir * 62, y_dir * 72)
                    } else if l.cstick_left {
                        (x_dir * 40, y_dir * 84)
                    } else if l.cstick_down {
                        (x_dir * 34, y_dir * 82)
                    } else if l.cstick_up {
                        (x_dir * 55, y_dir * 77)
                    } else if l.r_digital || l.l_digital {
                        (x_dir * 51, y_dir * 82)
                    } else if l.b {
                        (x_dir * 28, y_dir * 85)
                    } else {
                        (x_dir * 28, y_dir * 58)
                    }
                } else if vertical {
                    (0, y_dir * 70)
                } else if horizontal {
                    (x_dir * 35, 0)
                } else {
                    (0, 0)
                }
            } else if diagonal && l.stick_up {
                (x_dir * 83, y_dir * 93)
            } else {
                (x_dir * 100, y_dir * 100)
            }
        }
        BaseLogic::Rivals2 => {
            let shield = l.l_digital || l.r_digital;
            if l.mod_x {
                if diagonal && !shield {
                    if l.a {
                        (x_dir * 69, y_dir * 53)
                    } else if l.z {
                        (x_dir * 53, y_dir * 42)
                    } else if l.b {
                        (x_dir * 123, y_dir * 51)
                    } else {
                        (x_dir * 68, y_dir * 42)
                    }
                } else if diagonal && shield {
                    (x_dir * 76, y_dir * 42)
                } else if vertical {
                    (0, y_dir * 53)
                } else if horizontal {
                    (x_dir * 76, 0)
                } else {
                    (0, 0)
                }
            } else if l.mod_y {
                if diagonal && !shield {
                    if l.z {
                        (x_dir * 42, y_dir * 53)
                    } else if l.b {
                        (x_dir * 51, y_dir * 123)
                    } else {
                        (x_dir * 42, y_dir * 68)
                    }
                } else if vertical {
                    (0, y_dir * 90)
                } else if horizontal {
                    (x_dir * 53, 0)
                } else {
                    (0, 0)
                }
            } else if diagonal && shield {
                (x_dir * 92, y_dir * 92)
            } else if diagonal && !shield {
                (x_dir * 92, y_dir * 96)
            } else {
                (x_dir * 127, y_dir * 127)
            }
        }
    };
    ((128 + offsets.0) as u8, (128 + offsets.1) as u8)
}

/// The two c-stick bytes of the active variant, before any dpad exclusivity
/// override.
pub fn cstick_bytes(logic: &BaseLogic, l: &ButtonInputLogical) -> (r: (u8, u8))
    ensures
        r.0 as int == 128 + spec_cstick_offsets(*logic, *l).0,
        r.1 as int == 128 + spec_cstick_offsets(*logic, *l).1,
{
    let full: i16 = match logic {
        BaseLogic::ProjectPlus => 100,
        BaseLogic::Rivals2 => 127,
    };
    let cx_dir = axis_direction(l.cstick_left, l.cstick_right);
    let cy_dir = axis_direction(l.cstick_down, l.cstick_up);
    let y_dir = axis_direction(l.stick_down, l.stick_up);
    let offsets: (i16, i16) = if l.mod_x && (l.cstick_left || l.cstick_right) {
        // Allow for angled smash attacks
        (cx_dir * 65, y_dir * 23)
    } else {
        (cx_dir * full, cy_dir * full)
    };
    ((128 + offsets.0) as u8, (128 + offsets.1) as u8)
}

/// The byte an analog trigger contributes to the report.
pub fn trigger_byte(pressed: bool) -> (r: u8)
    ensures
        r == spec_trigger_byte(pressed),
{
    if pressed {
        49
    } else {
        0
    }
}

/// The stick tables are pure: the offsets read only the modifiers, the
/// resolved directions, and the b/a/z/shoulder qualifiers.  Two logical
/// states that agree on those fields produce identical offset pairs on both
/// sticks, whatever their other buttons do, and no axis's derivation can
/// disturb another's.
pub proof fn lemma_stick_curve_pure(logic: BaseLogic, a: ButtonInputLogical, b: ButtonInputLogical)
    requires
        a.mod_x == b.mod_x,
        a.mod_y == b.mod_y,
        a.stick_left == b.stick_left,
        a.stick_right == b.stick_right,
        a.stick_up == b.stick_up,
        a.stick_down == b.stick_down,
        a.cstick_left == b.cstick_left,
        a.cstick_right == b.cstick_right,
        a.cstick_up == b.cstick_up,
        a.cstick_down == b.cstick_down,
        a.a == b.a,
        a.b == b.b,
        a.z == b.z,
        a.l_digital == b.l_digital,
        a.r_digital == b.r_digital,
    ensures
        spec_stick_offsets(logic, a) == spec_stick_offsets(logic, b),
        spec_cstick_offsets(logic, a) == spec_cstick_offsets(logic, b),
{
}

} // verus!
