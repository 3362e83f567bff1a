use rukaibox::config::{LogicalButtonToPhysicalButton, PhysicalButton};
use rukaibox::input::ButtonInputResults;

fn no_buttons() -> ButtonInputResults {
    ButtonInputResults {
        left_pinky: false,
        left_ring: false,
        left_middle: false,
        left_index: false,
        left_middle_2: false,
        left_thumb_left: false,
        left_thumb_right: false,
        right_index: false,
        right_middle: false,
        right_ring: false,
        right_pinky: false,
        right_index_2: false,
        right_middle_2: false,
        right_ring_2: false,
        right_pinky_2: false,
        right_thumb_left: false,
        right_thumb_right: false,
        right_thumb_up: false,
        right_thumb_down: false,
        right_thumb_middle: false,
        start: false,
    }
}

fn all_unmapped() -> LogicalButtonToPhysicalButton {
    LogicalButtonToPhysicalButton {
        mod_x: PhysicalButton::Unmapped,
        mod_y: PhysicalButton::Unmapped,
        start: PhysicalButton::Unmapped,
        a: PhysicalButton::Unmapped,
        b: PhysicalButton::Unmapped,
        x: PhysicalButton::Unmapped,
        y: PhysicalButton::Unmapped,
        z: PhysicalButton::Unmapped,
        dpad_up: PhysicalButton::Unmapped,
        dpad_down: PhysicalButton::Unmapped,
        dpad_left: PhysicalButton::Unmapped,
        dpad_right: PhysicalButton::Unmapped,
        l_digital: PhysicalButton::Unmapped,
        r_digital: PhysicalButton::Unmapped,
        l_analog: PhysicalButton::Unmapped,
        r_analog: PhysicalButton::Unmapped,
        stick_left: PhysicalButton::Unmapped,
        stick_right: PhysicalButton::Unmapped,
        stick_up: PhysicalButton::Unmapped,
        stick_up2: PhysicalButton::Unmapped,
        stick_down: PhysicalButton::Unmapped,
        cstick_left: PhysicalButton::Unmapped,
        cstick_right: PhysicalButton::Unmapped,
        cstick_up: PhysicalButton::Unmapped,
        cstick_down: PhysicalButton::Unmapped,
    }
}

#[test]
fn every_switch_reads_through_its_button() {
    let mut input = no_buttons();
    input.left_pinky = true;
    input.right_thumb_middle = true;
    input.start = true;

    assert!(input.get_button_value(PhysicalButton::LeftPinky));
    assert!(input.get_button_value(PhysicalButton::RightThumbMiddle));
    assert!(input.get_button_value(PhysicalButton::Start));
    assert!(!input.get_button_value(PhysicalButton::LeftRing));
    assert!(!input.get_button_value(PhysicalButton::RightIndex2));
}

#[test]
fn the_unmapped_sentinel_always_reads_released() {
    let mut input = no_buttons();
    assert!(!input.get_button_value(PhysicalButton::Unmapped));

    // even with every switch held
    input = ButtonInputResults {
        left_pinky: true,
        left_ring: true,
        left_middle: true,
        left_index: true,
        left_middle_2: true,
        left_thumb_left: true,
        left_thumb_right: true,
        right_index: true,
        right_middle: true,
        right_ring: true,
        right_pinky: true,
        right_index_2: true,
        right_middle_2: true,
        right_ring_2: true,
        right_pinky_2: true,
        right_thumb_left: true,
        right_thumb_right: true,
        right_thumb_up: true,
        right_thumb_down: true,
        right_thumb_middle: true,
        start: true,
    };
    assert!(!input.get_button_value(PhysicalButton::Unmapped));
}

#[test]
fn stick_up_reads_the_or_of_its_two_slots() {
    let mut map = all_unmapped();
    map.stick_up = PhysicalButton::RightPinky;
    map.stick_up2 = PhysicalButton::LeftMiddle2;

    let mut input = no_buttons();
    input.left_middle_2 = true;  // only the second slot is held
    let logical = input.to_gc(&map);
    assert!(logical.stick_up);

    let mut input = no_buttons();
    input.right_pinky = true;  // only the first slot is held
    let logical = input.to_gc(&map);
    assert!(logical.stick_up);

    let logical = no_buttons().to_gc(&map);
    assert!(!logical.stick_up);
}

#[test]
fn unmapped_dpad_directions_read_released() {
    let mut input = no_buttons();
    input.start = true;
    let mut map = all_unmapped();
    map.start = PhysicalButton::Start;

    let logical = input.to_gc(&map);
    assert!(logical.start);
    assert!(!logical.dpad_down);
    assert!(!logical.dpad_left);
    assert!(!logical.dpad_right);
}

#[test]
fn mapped_dpad_directions_read_their_switches() {
    let mut map = all_unmapped();
    map.dpad_up = PhysicalButton::RightPinky2;
    map.dpad_down = PhysicalButton::RightThumbDown;
    map.dpad_left = PhysicalButton::RightThumbLeft;
    map.dpad_right = PhysicalButton::RightThumbRight;

    let mut input = no_buttons();
    input.right_thumb_down = true;
    input.right_thumb_left = true;
    let logical = input.to_gc(&map);
    assert!(!logical.dpad_up);
    assert!(logical.dpad_down);
    assert!(logical.dpad_left);
    assert!(!logical.dpad_right);
}
