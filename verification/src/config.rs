//! Configuration data model: the physical and logical button sets, the
//! per-profile options, and the mapping table from logical functions to
//! physical switches.

use vstd::prelude::*;

use arrayvec::ArrayVec;

verus! {

/// A physical switch on the device, named by the finger that presses it.
/// `Unmapped` is a sentinel for "never pressed" and backs every unmapped
/// logical function.
#[derive(Clone, Copy, Debug, PartialEq, Eq, Structural)]
pub enum PhysicalButton {
    Start,
    LeftPinky,
    LeftRing,
    LeftMiddle,
    LeftIndex,
    LeftMiddle2,
    LeftThumbLeft,
    LeftThumbRight,
    RightIndex,
    RightMiddle,
    RightRing,
    RightPinky,
    RightIndex2,
    RightMiddle2,
    RightRing2,
    RightPinky2,
    RightThumbLeft,
    RightThumbRight,
    RightThumbUp,
    RightThumbDown,
    RightThumbMiddle,
    Unmapped,
}

/// An abstract controller function that a physical switch can be mapped to.
#[derive(Clone, Copy, Debug, PartialEq, Eq, Structural)]
pub enum LogicalButton {
    LAnalog,
    RAnalog,
    LDigital,
    RDigital,
    StickUp,
    StickDown,
    StickLeft,
    StickRight,
    CstickUp,
    CstickDown,
    CstickLeft,
    CstickRight,
    DpadUp,
    DpadDown,
    DpadLeft,
    DpadRight,
    ModX,
    ModY,
    A,
    B,
    X,
    Y,
    Z,
}

/// Which opposing-direction resolution policy a profile uses.
#[derive(Clone, Copy, Debug, PartialEq, Eq, Structural)]
pub enum SocdType {
    SecondInputPriority,
    Neutral,
}

/// Which coordinate-table variant a profile uses.
#[derive(Clone, Copy, Debug, PartialEq, Eq, Structural)]
pub enum BaseLogic {
    ProjectPlus,
    Rivals2,
}

/// Total mapping from each logical function to the physical switch that
/// drives it; `PhysicalButton::Unmapped` means the function is never pressed.
/// Stick-up has a second independent slot, `stick_up2`, that is read as a
/// logical OR with `stick_up`.
#[derive(Clone, Copy, Debug, PartialEq, Eq, Structural)]
pub struct LogicalButtonToPhysicalButton {
    pub mod_x: PhysicalButton,
    pub mod_y: PhysicalButton,

    pub start: PhysicalButton,
    pub a: PhysicalButton,
    pub b: PhysicalButton,
    pub x: PhysicalButton,
    pub y: PhysicalButton,
    pub z: PhysicalButton,

    pub dpad_up: PhysicalButton,
    pub dpad_down: PhysicalButton,
    pub dpad_left: PhysicalButton,
    pub dpad_right: PhysicalButton,

    pub l_digital: PhysicalButton,
    pub r_digital: PhysicalButton,
    pub l_analog: PhysicalButton,
    pub r_analog: PhysicalButton,

    pub stick_left: PhysicalButton,
    pub stick_right: PhysicalButton,
    pub stick_up: PhysicalButton,
    pub stick_up2: PhysicalButton,
    pub stick_down: PhysicalButton,

    pub cstick_left: PhysicalButton,
    pub cstick_right: PhysicalButton,
    pub cstick_up: PhysicalButton,
    pub cstick_down: PhysicalButton,
}

/// Declares arrayvec's bounded vector so that it can stand in the
/// configuration's fields; its contents are reachable only through the
/// trusted accessors below.
#[verifier::external_type_specification]
#[verifier::external_body]
#[verifier::reject_recursive_types(T)]
pub struct ExArrayVec<T, const CAP: usize>(ArrayVec<T, CAP>);

/// One mapping profile: the buttons that, held together, activate it, the
/// coordinate-table variant and opposing-direction policy it uses, and its
/// mapping table.
pub struct Profile {
    pub activation_combination: ArrayVec<PhysicalButton, 10>,
    pub logic: BaseLogic,
    pub socd: SocdType,
    pub buttons: LogicalButtonToPhysicalButton,
}

/// The whole device configuration: a format version and the bounded ordered
/// list of profiles; the profile at index 0 is the default.
pub struct Config {
    pub version: u32,
    pub profiles: ArrayVec<Profile, 2>,
}

/// What a bounded profile list holds, in declaration order.
pub uninterp spec fn profile_elems(v: ArrayVec<Profile, 2>) -> Seq<Profile>;

/// What a bounded activation-combination list holds, in declaration order.
pub uninterp spec fn combo_elems(v: ArrayVec<PhysicalButton, 10>) -> Seq<PhysicalButton>;

/// Relies on arrayvec::ArrayVec::len: the number of initialized elements.
#[verifier::external_body]
pub(crate) fn profiles_len(v: &ArrayVec<Profile, 2>) -> (n: usize)
    ensures
        n == profile_elems(*v).len(),
{
    v.len()
}

/// Relies on arrayvec::ArrayVec's slice indexing: the element at `i` among
/// the first `len` initialized elements.
#[verifier::external_body]
pub(crate) fn profiles_get(v: &ArrayVec<Profile, 2>, i: usize) -> (p: &Profile)
    requires
        i < profile_elems(*v).len(),
    ensures
        *p == profile_elems(*v)[i as int],
{
    &v[i]
}

/// Relies on arrayvec::ArrayVec::len: the number of initialized elements.
#[verifier::external_body]
pub(crate) fn combo_len(v: &ArrayVec<PhysicalButton, 10>) -> (n: usize)
    ensures
        n == combo_elems(*v).len(),
{
    v.len()
}

/// Relies on arrayvec::ArrayVec's slice indexing: the element at `i` among
/// the first `len` initialized elements.
#[verifier::external_body]
pub(crate) fn combo_get(v: &ArrayVec<PhysicalButton, 10>, i: usize) -> (b: PhysicalButton)
    requires
        i < combo_elems(*v).len(),
    ensures
        b == combo_elems(*v)[i as int],
{
    v[i]
}

} // verus!
