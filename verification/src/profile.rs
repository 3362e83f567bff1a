//! The active mapping engine: one engine per base-logic variant, each owning
//! its opposing-direction history, and the per-cycle profile selection that
//! replaces the engine when an activation combination is held.

use vstd::prelude::*;

use crate::config;
use crate::config::{
    combo_elems, combo_get, combo_len, profile_elems, profiles_get, profiles_len, BaseLogic,
    Config, LogicalButtonToPhysicalButton, Profile,
};
use crate::input::{ButtonInputLogical, ButtonInputResults};
use crate::report::{build_report, spec_build_report, GamecubeInput};
use crate::socd::{spec_latch_after, spec_resolve, SocdState, SocdType};

verus! {

/// The resolver policy a configured profile asks for.
pub open spec fn spec_socd_type_of(c: config::SocdType) -> SocdType {
    match c {
        config::SocdType::SecondInputPriority => SocdType::SecondInputPriority,
        config::SocdType::Neutral => SocdType::Neutral,
    }
}

/// The logical state after every opposing direction pair has been resolved
/// against the current history: stick left/right, stick up/down, c-stick
/// left/right and c-stick up/down each go through one resolver step; every
/// other field passes through.
pub open spec fn spec_resolved_logical(
    ty: SocdType,
    st: SocdState,
    l: ButtonInputLogical,
) -> ButtonInputLogical {
    let stick_h = spec_resolve(ty, l.stick_left, l.stick_right, st.prev_left, st.prev_right);
    let stick_v = spec_resolve(ty, l.stick_up, l.stick_down, st.prev_up, st.prev_down);
    let cstick_h = spec_resolve(
        ty,
        l.cstick_left,
        l.cstick_right,
        st.prev_cstick_left,
        st.prev_cstick_right,
    );
    let cstick_v = spec_resolve(
        ty,
        l.cstick_up,
        l.cstick_down,
        st.prev_cstick_up,
        st.prev_cstick_down,
    );
    ButtonInputLogical {
        stick_left: stick_h.0,
        stick_right: stick_h.1,
        stick_up: stick_v.0,
        stick_down: stick_v.1,
        cstick_left: cstick_h.0,
        cstick_right: cstick_h.1,
        cstick_up: cstick_v.0,
        cstick_down: cstick_v.1,
        ..l
    }
}

/// The per-axis history after one full resolution pass over the same four
/// axis pairs.
pub open spec fn spec_state_after(ty: SocdType, st: SocdState, l: ButtonInputLogical) -> SocdState {
    let stick_h = spec_latch_after(ty, l.stick_left, l.stick_right, st.prev_left, st.prev_right);
    let stick_v = spec_latch_after(ty, l.stick_up, l.stick_down, st.prev_up, st.prev_down);
    let cstick_h = spec_latch_after(
        ty,
        l.cstick_left,
        l.cstick_right,
        st.prev_cstick_left,
        st.prev_cstick_right,
    );
    let cstick_v = spec_latch_after(
        ty,
        l.cstick_up,
        l.cstick_down,
        st.prev_cstick_up,
        st.prev_cstick_down,
    );
    SocdState {
        prev_left: stick_h.0,
        prev_right: stick_h.1,
        prev_up: stick_v.0,
        prev_down: stick_v.1,
        prev_cstick_left: cstick_h.0,
        prev_cstick_right: cstick_h.1,
        prev_cstick_up: cstick_v.0,
        prev_cstick_down: cstick_v.1,
    }
}

/// The mapping engine for the ProjectPlus coordinate tables.
pub struct ProjectPlusMapping {
    pub socd_state: SocdState,
    pub socd_type: SocdType,
    pub button_mapping: LogicalButtonToPhysicalButton,
}

/// The mapping engine for the Rivals2 coordinate tables.
pub struct Rivals2Mapping {
    pub socd_state: SocdState,
    pub socd_type: SocdType,
    pub button_mapping: LogicalButtonToPhysicalButton,
}

impl ProjectPlusMapping {
    /// The engine a profile constructs: its mapping table and resolver
    /// policy, with the resolution history reset to neutral.
    pub open spec fn spec_new(profile: Profile) -> ProjectPlusMapping {
        ProjectPlusMapping {
            socd_state: SocdState::spec_neutral(),
            socd_type: spec_socd_type_of(profile.socd),
            button_mapping: profile.buttons,
        }
    }

    /// Construct a fresh engine for a profile; the resolution history starts
    /// neutral.
    pub fn new(profile: &Profile) -> (r: Self)
        ensures
            r == Self::spec_new(*profile),
    {
        let socd_type = match profile.socd {
            config::SocdType::SecondInputPriority => SocdType::SecondInputPriority,
            config::SocdType::Neutral => SocdType::Neutral,
        };
        ProjectPlusMapping {
            button_mapping: profile.buttons,
            socd_state: Default::default(),
            socd_type,
        }
    }

    /// One poll: map the sample through the table, resolve every opposing
    /// pair against the history (updating it), and build the report from the
    /// ProjectPlus tables.
    pub fn map_to_gamecube(&mut self, input: &ButtonInputResults) -> (r: GamecubeInput)
        ensures
            ({
                let l = input.spec_to_gc(old(self).button_mapping);
                &&& r == spec_build_report(
                    BaseLogic::ProjectPlus,
                    spec_resolved_logical(old(self).socd_type, old(self).socd_state, l),
                )
                &&& final(self).socd_state == spec_state_after(
                    old(self).socd_type,
                    old(self).socd_state,
                    l,
                )
                &&& final(self).socd_type == old(self).socd_type
                &&& final(self).button_mapping == old(self).button_mapping
            }),
    {
        let l = input.to_gc(&self.button_mapping);
        let resolved = resolve_all(self.socd_type, &mut self.socd_state, &l);
        build_report(&BaseLogic::ProjectPlus, &resolved)
    }
}

impl Rivals2Mapping {
    /// The engine a profile constructs: its mapping table and resolver
    /// policy, with the resolution history reset to neutral.
    pub open spec fn spec_new(profile: Profile) -> Rivals2Mapping {
        Rivals2Mapping {
            socd_state: SocdState::spec_neutral(),
            socd_type: spec_socd_type_of(profile.socd),
            button_mapping: profile.buttons,
        }
    }

    /// Construct a fresh engine for a profile; the resolution history starts
    /// neutral.
    pub fn new(profile: &Profile) -> (r: Self)
        ensures
            r == Self::spec_new(*profile),
    {
        let socd_type = match profile.socd {
            config::SocdType::SecondInputPriority => SocdType::SecondInputPriority,
            config::SocdType::Neutral => SocdType::Neutral,
        };
        Rivals2Mapping {
            button_mapping: profile.buttons,
            socd_state: Default::default(),
            socd_type,
        }
    }

    /// One poll: map the sample through the table, resolve every opposing
    /// pair against the history (updating it), and build the report from the
    /// Rivals2 tables.
    pub fn map_to_gamecube(&mut self, input: &ButtonInputResults) -> (r: GamecubeInput)
        ensures
            ({
                let l = input.spec_to_gc(old(self).button_mapping);
                &&& r == spec_build_report(
                    BaseLogic::Rivals2,
                    spec_resolved_logical(old(self).socd_type, old(self).socd_state, l),
                )
                &&& final(self).socd_state == spec_state_after(
                    old(self).socd_type,
                    old(self).socd_state,
                    l,
                )
                &&& final(self).socd_type == old(self).socd_type
                &&& final(self).button_mapping == old(self).button_mapping
            }),
    {
        let l = input.to_gc(&self.button_mapping);
        let resolved = resolve_all(self.socd_type, &mut self.socd_state, &l);
        build_report(&BaseLogic::Rivals2, &resolved)
    }
}

/// Run the resolver over all four opposing pairs, updating the history in
/// place, and return the resolved logical state.
#[verifier::rlimit(60)]
fn resolve_all(ty: SocdType, st: &mut SocdState, l: &ButtonInputLogical) -> (r: ButtonInputLogical)
    ensures
        r == spec_resolved_logical(ty, *old(st), *l),
        *final(st) == spec_state_after(ty, *old(st), *l),
{
    let (stick_left, stick_right) = ty.resolve(
        l.stick_left,
        l.stick_right,
        &mut st.prev_left,
        &mut st.prev_right,
    );
    let (stick_up, stick_down) = ty.resolve(
        l.stick_up,
        l.stick_down,
        &mut st.prev_up,
        &mut st.prev_down,
    );
    let (cstick_left, cstick_right) = ty.resolve(
        l.cstick_left,
        l.cstick_right,
        &mut st.prev_cstick_left,
        &mut st.prev_cstick_right,
    );
    let (cstick_up, cstick_down) = ty.resolve(
        l.cstick_up,
        l.cstick_down,
        &mut st.prev_cstick_up,
        &mut st.prev_cstick_down,
    );
    ButtonInputLogical {
        stick_left,
        stick_right,
        stick_up,
        stick_down,
        cstick_left,
        cstick_right,
        cstick_up,
        cstick_down,
        ..*l
    }
}

/// The active mapping engine, tagged by base-logic variant.
pub enum MapProfile {
    ProjectPlus(ProjectPlusMapping),
    Rivals2(Rivals2Mapping),
}

/// Whether a profile's activation combination is currently held: the
/// combination must be non-empty and every physical button in it must read
/// pressed.  An empty combination can never activate a profile.
pub open spec fn spec_profile_active(p: Profile, input: ButtonInputResults) -> bool {
    let combo = combo_elems(p.activation_combination);
    &&& combo.len() > 0
    &&& forall|k: int| 0 <= k < combo.len() ==> input.spec_button_value(#[trigger] combo[k])
}

/// The index of the first profile, in declaration order, whose activation
/// combination is currently held, if any.
pub open spec fn spec_first_active(profiles: Seq<Profile>, input: ButtonInputResults) -> Option<
    int,
>
    decreases profiles.len(),
{
    if profiles.len() == 0 {
        Option::None
    } else if spec_profile_active(profiles[0], input) {
        Option::Some(0)
    } else {
        match spec_first_active(profiles.drop_first(), input) {
            Option::Some(i) => Option::Some(i + 1),
            Option::None => Option::None,
        }
    }
}

/// An empty activation combination can never by itself activate a profile,
/// whatever is pressed.
pub proof fn lemma_empty_combination_never_active(p: Profile, input: ButtonInputResults)
    requires
        combo_elems(p.activation_combination).len() == 0,
    ensures
        !spec_profile_active(p, input),
{
}

/// If `i` is active and nothing before it is, then `i` is the first active
/// index.
proof fn lemma_first_active_found(profiles: Seq<Profile>, input: ButtonInputResults, i: int)
    requires
        0 <= i < profiles.len(),
        spec_profile_active(profiles[i], input),
        forall|j: int| 0 <= j < i ==> !spec_profile_active(#[trigger] profiles[j], input),
    ensures
        spec_first_active(profiles, input) == Option::<int>::Some(i),
    decreases i,
{
    if i == 0 {
    } else {
        assert(!spec_profile_active(profiles[0], input));
        lemma_first_active_found(profiles.drop_first(), input, i - 1);
    }
}

/// If no profile is active, there is no first active index.
proof fn lemma_first_active_none(profiles: Seq<Profile>, input: ButtonInputResults)
    requires
        forall|j: int|
            0 <= j < profiles.len() ==> !spec_profile_active(#[trigger] profiles[j], input),
    ensures
        spec_first_active(profiles, input) is None,
    decreases profiles.len(),
{
    if profiles.len() > 0 {
        lemma_first_active_none(profiles.drop_first(), input);
    }
}

/// Whether this profile's activation combination is currently held.
fn profile_matches(input: &ButtonInputResults, p: &Profile) -> (r: bool)
    ensures
        r == spec_profile_active(*p, *input),
{
    let n = combo_len(&p.activation_combination);
    if n == 0 {
        return false;
    }
    let mut k: usize = 0;
    while k < n
        invariant
            n == combo_elems(p.activation_combination).len(),
            k <= n,
            forall|j: int|
                0 <= j < k ==> input.spec_button_value(
                    #[trigger] combo_elems(p.activation_combination)[j],
                ),
        decreases n - k,
    {
        if !input.get_button_value(combo_get(&p.activation_combination, k)) {
            return false;
        }
        k = k + 1;
    }
    true
}

impl MapProfile {
    /// The engine a configured profile constructs, tagged by its base-logic
    /// variant, with its resolution history neutral.
    pub open spec fn spec_new(profile: Profile) -> MapProfile {
        match profile.logic {
            BaseLogic::ProjectPlus => MapProfile::ProjectPlus(ProjectPlusMapping::spec_new(profile)),
            BaseLogic::Rivals2 => MapProfile::Rivals2(Rivals2Mapping::spec_new(profile)),
        }
    }

    /// The base-logic variant this engine runs.
    pub open spec fn spec_logic(self) -> BaseLogic {
        match self {
            MapProfile::ProjectPlus(_) => BaseLogic::ProjectPlus,
            MapProfile::Rivals2(_) => BaseLogic::Rivals2,
        }
    }

    /// The resolver policy this engine runs.
    pub open spec fn spec_socd_type(self) -> SocdType {
        match self {
            MapProfile::ProjectPlus(x) => x.socd_type,
            MapProfile::Rivals2(x) => x.socd_type,
        }
    }

    /// This engine's per-axis resolution history.
    pub open spec fn spec_socd_state(self) -> SocdState {
        match self {
            MapProfile::ProjectPlus(x) => x.socd_state,
            MapProfile::Rivals2(x) => x.socd_state,
        }
    }

    /// This engine's mapping table.
    pub open spec fn spec_mapping(self) -> LogicalButtonToPhysicalButton {
        match self {
            MapProfile::ProjectPlus(x) => x.button_mapping,
            MapProfile::Rivals2(x) => x.button_mapping,
        }
    }

    /// Construct the engine a configured profile asks for.
    pub fn new(config: &Profile) -> (r: Self)
        ensures
            r == Self::spec_new(*config),
    {
        match config.logic {
            BaseLogic::ProjectPlus => MapProfile::ProjectPlus(ProjectPlusMapping::new(config)),
            BaseLogic::Rivals2 => MapProfile::Rivals2(Rivals2Mapping::new(config)),
        }
    }

    /// One poll through the active engine: map the sample, resolve opposing
    /// pairs against the engine's history (updating it), and build the
    /// report from the engine's tables.
    pub fn map_to_gamecube(&mut self, input: &ButtonInputResults) -> (r: GamecubeInput)
        ensures
            ({
                let l = input.spec_to_gc(old(self).spec_mapping());
                &&& r == spec_build_report(
                    old(self).spec_logic(),
                    spec_resolved_logical(old(self).spec_socd_type(), old(self).spec_socd_state(), l),
                )
                &&& final(self).spec_logic() == old(self).spec_logic()
                &&& final(self).spec_socd_type() == old(self).spec_socd_type()
                &&& final(self).spec_mapping() == old(self).spec_mapping()
                &&& final(self).spec_socd_state() == spec_state_after(
                    old(self).spec_socd_type(),
                    old(self).spec_socd_state(),
                    l,
                )
            }),
    {
        match self {
            MapProfile::ProjectPlus(x) => x.map_to_gamecube(input),
            MapProfile::Rivals2(x) => x.map_to_gamecube(input),
        }
    }

    /// Scan the configured profiles in declared order and replace this
    /// engine with a freshly constructed one for the first profile whose
    /// non-empty activation combination is fully held; leave the engine
    /// untouched when no profile's combination is held.
    pub fn change_profile(&mut self, input: &ButtonInputResults, config: &Config)
        ensures
            match spec_first_active(profile_elems(config.profiles), *input) {
                Option::Some(i) => *final(self) == Self::spec_new(
                    profile_elems(config.profiles)[i],
                ),
                Option::None => *final(self) == *old(self),
            },
    {
        let n = profiles_len(&config.profiles);
        let mut i: usize = 0;
        while i < n
            invariant
                n == profile_elems(config.profiles).len(),
                i <= n,
                *self == *old(self),
                forall|j: int|
                    0 <= j < i ==> !spec_profile_active(
                        #[trigger] profile_elems(config.profiles)[j],
                        *input,
                    ),
            decreases n - i,
        {
            let profile = profiles_get(&config.profiles, i);
            if profile_matches(input, profile) {
                proof {
                    lemma_first_active_found(profile_elems(config.profiles), *input, i as int);
                }
                *self = Self::new(profile);
                return ;
            }
            i = i + 1;
        }
        proof {
            lemma_first_active_none(profile_elems(config.profiles), *input);
        }
    }
}

} // verus!
