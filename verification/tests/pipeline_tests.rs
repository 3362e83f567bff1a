use arrayvec::ArrayVec;
use rukaibox::config::{
    BaseLogic, LogicalButtonToPhysicalButton, PhysicalButton, Profile, SocdType,
};
use rukaibox::input::ButtonInputResults;
use rukaibox::profile::MapProfile;

fn standard_mapping() -> LogicalButtonToPhysicalButton {
    LogicalButtonToPhysicalButton {
        mod_x: PhysicalButton::LeftThumbLeft,
        mod_y: PhysicalButton::LeftThumbRight,
        start: PhysicalButton::Start,
        a: PhysicalButton::RightThumbMiddle,
        b: PhysicalButton::RightIndex,
        x: PhysicalButton::RightMiddle,
        y: PhysicalButton::RightMiddle2,
        z: PhysicalButton::RightRing,
        dpad_up: PhysicalButton::RightPinky2,
        dpad_down: PhysicalButton::Unmapped,
        dpad_left: PhysicalButton::Unmapped,
        dpad_right: PhysicalButton::Unmapped,
        l_digital: PhysicalButton::LeftPinky,
        r_digital: PhysicalButton::RightIndex2,
        l_analog: PhysicalButton::LeftMiddle2,
        r_analog: PhysicalButton::RightRing2,
        stick_left: PhysicalButton::LeftRing,
        stick_right: PhysicalButton::LeftIndex,
        stick_up: PhysicalButton::RightPinky,
        stick_up2: PhysicalButton::Unmapped,
        stick_down: PhysicalButton::LeftMiddle,
        cstick_left: PhysicalButton::RightThumbLeft,
        cstick_right: PhysicalButton::RightThumbRight,
        cstick_up: PhysicalButton::RightThumbUp,
        cstick_down: PhysicalButton::RightThumbDown,
    }
}

fn profile(logic: BaseLogic) -> Profile {
    Profile {
        activation_combination: ArrayVec::new(),
        logic,
        socd: SocdType::SecondInputPriority,
        buttons: standard_mapping(),
    }
}

fn no_buttons() -> ButtonInputResults {
    ButtonInputResults {
        left_pinky: false,
        left_ring: false,
        left_middle: false,
        left_index: false,
        left_middle_2: false,
        left_thumb_left: false,
        left_thumb_right: false,
        right_index: false,
        right_middle: false,
        right_ring: false,
        right_pinky: false,
        right_index_2: false,
        right_middle_2: false,
        right_ring_2: false,
        right_pinky_2: false,
        right_thumb_left: false,
        right_thumb_right: false,
        right_thumb_up: false,
        right_thumb_down: false,
        right_thumb_middle: false,
        start: false,
    }
}

#[test]
fn stick_right_alone_gives_full_table_deflection() {
    let mut engine = MapProfile::new(&profile(BaseLogic::ProjectPlus));
    let mut input = no_buttons();
    input.left_index = true;  // mapped to stick-right

    let report = engine.map_to_gamecube(&input);
    // The no-modifier cardinal entry of the ProjectPlus table is (100, 100),
    // scaled by the direction signs (1, 0) around the 128 center.
    assert_eq!(report.stick_x, 228);
    assert_eq!(report.stick_y, 128);
    assert_eq!(report.cstick_x, 128);
    assert_eq!(report.cstick_y, 128);
    assert_eq!(report.l_analog, 0);
    assert_eq!(report.r_analog, 0);
}

#[test]
fn stick_right_alone_under_rivals2_gives_maximum() {
    let mut engine = MapProfile::new(&profile(BaseLogic::Rivals2));
    let mut input = no_buttons();
    input.left_index = true;  // mapped to stick-right

    let report = engine.map_to_gamecube(&input);
    // The no-modifier cardinal entry of the Rivals2 table is (127, 127).
    assert_eq!(report.stick_x, 255);
    assert_eq!(report.stick_y, 128);
}

#[test]
fn mod_x_diagonal_gives_the_plain_diagonal_pair() {
    let mut engine = MapProfile::new(&profile(BaseLogic::ProjectPlus));
    let mut input = no_buttons();
    input.left_thumb_left = true;  // ModX
    input.left_index = true;  // stick-right
    input.right_pinky = true;  // stick-up

    let report = engine.map_to_gamecube(&input);
    // ModX diagonal with no c-stick, shoulder or b qualifier is (70, 34).
    assert_eq!(report.stick_x, 128 + 70);
    assert_eq!(report.stick_y, 128 + 34);
}

#[test]
fn mod_x_diagonal_with_cstick_right_picks_its_pair() {
    let mut engine = MapProfile::new(&profile(BaseLogic::ProjectPlus));
    let mut input = no_buttons();
    input.left_thumb_left = true;  // ModX
    input.left_ring = true;  // stick-left
    input.left_middle = true;  // stick-down
    input.right_thumb_right = true;  // cstick-right

    let report = engine.map_to_gamecube(&input);
    // The (72, 61) pair scaled by direction signs (-1, -1); the c-stick
    // itself emits the angled pair (65 * 1, 23 * -1).
    assert_eq!(report.stick_x, 128 - 72);
    assert_eq!(report.stick_y, 128 - 61);
    assert_eq!(report.cstick_x, 128 + 65);
    assert_eq!(report.cstick_y, 128 - 23);
}

#[test]
fn mod_y_vertical_only_pair() {
    let mut engine = MapProfile::new(&profile(BaseLogic::ProjectPlus));
    let mut input = no_buttons();
    input.left_thumb_right = true;  // ModY
    input.right_pinky = true;  // stick-up

    let report = engine.map_to_gamecube(&input);
    assert_eq!(report.stick_x, 128);
    assert_eq!(report.stick_y, 128 + 70);
}

#[test]
fn no_mod_diagonal_up_pair() {
    let mut engine = MapProfile::new(&profile(BaseLogic::ProjectPlus));
    let mut input = no_buttons();
    input.left_index = true;  // stick-right
    input.right_pinky = true;  // stick-up

    let report = engine.map_to_gamecube(&input);
    assert_eq!(report.stick_x, 128 + 83);
    assert_eq!(report.stick_y, 128 + 93);
}

#[test]
fn rivals2_mod_x_diagonal_with_b_held() {
    let mut engine = MapProfile::new(&profile(BaseLogic::Rivals2));
    let mut input = no_buttons();
    input.left_thumb_left = true;  // ModX
    input.left_index = true;  // stick-right
    input.right_pinky = true;  // stick-up
    input.right_index = true;  // b

    let report = engine.map_to_gamecube(&input);
    assert_eq!(report.stick_x, 128 + 123);
    assert_eq!(report.stick_y, 128 + 51);
}

#[test]
fn rivals2_diagonal_while_shielding() {
    let mut engine = MapProfile::new(&profile(BaseLogic::Rivals2));
    let mut input = no_buttons();
    input.left_index = true;  // stick-right
    input.right_pinky = true;  // stick-up
    input.left_pinky = true;  // l-digital

    let report = engine.map_to_gamecube(&input);
    assert_eq!(report.stick_x, 128 + 92);
    assert_eq!(report.stick_y, 128 + 92);
    assert!(report.l_digital);
}

#[test]
fn analog_triggers_emit_the_fixed_byte() {
    let mut engine = MapProfile::new(&profile(BaseLogic::ProjectPlus));
    let mut input = no_buttons();
    input.left_middle_2 = true;  // l-analog
    input.right_ring_2 = true;  // r-analog

    let report = engine.map_to_gamecube(&input);
    assert_eq!(report.l_analog, 49);
    assert_eq!(report.r_analog, 49);
}

#[test]
fn both_mods_with_cstick_press_dpad_and_neutralize_cstick() {
    let mut engine = MapProfile::new(&profile(BaseLogic::ProjectPlus));
    let mut input = no_buttons();
    input.left_thumb_left = true;  // ModX
    input.left_thumb_right = true;  // ModY
    input.right_thumb_up = true;  // cstick-up

    let report = engine.map_to_gamecube(&input);
    assert!(report.dpad_up);
    assert!(!report.dpad_down);
    assert_eq!(report.cstick_y, 128);
    assert_eq!(report.cstick_x, 128);
}

#[test]
fn rivals2_native_dpad_reads_its_mapped_switch() {
    let mut p = profile(BaseLogic::Rivals2);
    p.buttons.r_analog = PhysicalButton::Unmapped;
    p.buttons.dpad_down = PhysicalButton::RightRing2;
    let mut engine = MapProfile::new(&p);

    let mut input = no_buttons();
    input.right_ring_2 = true;  // mapped to dpad-down

    let report = engine.map_to_gamecube(&input);
    assert!(report.dpad_down);
    // an active dpad axis forces the c-stick byte on that axis to neutral
    assert_eq!(report.cstick_y, 128);
}

#[test]
fn project_plus_reads_no_native_dpad_but_up() {
    let mut p = profile(BaseLogic::ProjectPlus);
    p.buttons.r_analog = PhysicalButton::Unmapped;
    p.buttons.dpad_down = PhysicalButton::RightRing2;
    let mut engine = MapProfile::new(&p);

    let mut input = no_buttons();
    input.right_ring_2 = true;  // mapped to dpad-down
    input.right_pinky_2 = true;  // mapped to dpad-up

    let report = engine.map_to_gamecube(&input);
    // the ProjectPlus variant defines a native read for dpad-up only
    assert!(report.dpad_up);
    assert!(!report.dpad_down);
}

#[test]
fn socd_conflict_resolves_through_the_whole_pipeline() {
    let mut engine = MapProfile::new(&profile(BaseLogic::ProjectPlus));
    let mut input = no_buttons();
    input.left_ring = true;  // stick-left
    input.left_index = true;  // stick-right

    // A simultaneous first press resolves to the negative (left) side.
    let report = engine.map_to_gamecube(&input);
    assert_eq!(report.stick_x, 28);
    assert_eq!(report.stick_y, 128);
}

#[test]
fn report_bytes_pack_buttons_and_axes() {
    let mut engine = MapProfile::new(&profile(BaseLogic::ProjectPlus));
    let mut input = no_buttons();
    input.start = true;
    input.right_thumb_middle = true;  // a
    input.right_ring = true;  // z
    input.left_pinky = true;  // l-digital

    let report = engine.map_to_gamecube(&input);
    let bytes = report.create_report();
    assert_eq!(bytes[0], 0x01 | 0x10);  // a | start
    assert_eq!(bytes[1], 0x80 | 0x10 | 0x20);  // always-set | z | l-digital
    assert_eq!(bytes[2], 128);
    assert_eq!(bytes[3], 128);
    assert_eq!(bytes[4], 128);
    assert_eq!(bytes[5], 128);
    assert_eq!(bytes[6], 0);  // l-analog is not held, only the digital shoulder
    assert_eq!(bytes[7], 0);
}

#[test]
fn identical_inputs_give_identical_reports() {
    let mut input = no_buttons();
    input.left_thumb_left = true;
    input.left_index = true;
    input.right_pinky = true;

    let mut first = MapProfile::new(&profile(BaseLogic::ProjectPlus));
    let mut second = MapProfile::new(&profile(BaseLogic::ProjectPlus));
    let a = first.map_to_gamecube(&input);
    let b = second.map_to_gamecube(&input);
    assert_eq!(a, b);
}
