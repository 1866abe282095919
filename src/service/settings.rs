//! Device settings: identifiers and the value types of the settings that
//! hold more than a flag.

pub mod id;

use vstd::prelude::*;

verus! {

/// A setting of the device.
#[derive(Debug, Clone, Copy, PartialEq, Eq, Structural)]
pub enum SettingId {
    AutoOtaEnable,
    OhdEnable,
    OobeIsFinished,
    GestureEnable,
    DiagnosticsEnable,
    OobeMode,
    GestureControl,
    AncAccessibilityMode,
    AncrStateOneBud,
    AncrStateTwoBuds,
    MultipointEnable,
    AncrGestureLoop,
    CurrentAncrState,
    OttsMode,
    VolumeEqEnable,
    CurrentUserEq,
    VolumeAsymmetry,
    LastSavedUserEq,
    SumToMono,
    VolumeExposureNotifications,
    SpeechDetection,
    Unknown(i32),
}

/// The a setting of the device numbered `v`; other numbers are kept in `Unknown`.
pub open spec fn setting_id_of(v: i32) -> SettingId {
    if v == 1 {
        SettingId::AutoOtaEnable
    } else if v == 2 {
        SettingId::OhdEnable
    } else if v == 3 {
        SettingId::OobeIsFinished
    } else if v == 4 {
        SettingId::GestureEnable
    } else if v == 5 {
        SettingId::DiagnosticsEnable
    } else if v == 6 {
        SettingId::OobeMode
    } else if v == 7 {
        SettingId::GestureControl
    } else if v == 8 {
        SettingId::AncAccessibilityMode
    } else if v == 9 {
        SettingId::AncrStateOneBud
    } else if v == 10 {
        SettingId::AncrStateTwoBuds
    } else if v == 11 {
        SettingId::MultipointEnable
    } else if v == 12 {
        SettingId::AncrGestureLoop
    } else if v == 13 {
        SettingId::CurrentAncrState
    } else if v == 14 {
        SettingId::OttsMode
    } else if v == 15 {
        SettingId::VolumeEqEnable
    } else if v == 16 {
        SettingId::CurrentUserEq
    } else if v == 17 {
        SettingId::VolumeAsymmetry
    } else if v == 18 {
        SettingId::LastSavedUserEq
    } else if v == 19 {
        SettingId::SumToMono
    } else if v == 21 {
        SettingId::VolumeExposureNotifications
    } else if v == 22 {
        SettingId::SpeechDetection
    } else {
        SettingId::Unknown(v)
    }
}

/// The number of `x`.
pub open spec fn setting_id_value(x: SettingId) -> i32 {
    match x {
        SettingId::AutoOtaEnable => 1,
        SettingId::OhdEnable => 2,
        SettingId::OobeIsFinished => 3,
        SettingId::GestureEnable => 4,
        SettingId::DiagnosticsEnable => 5,
        SettingId::OobeMode => 6,
        SettingId::GestureControl => 7,
        SettingId::AncAccessibilityMode => 8,
        SettingId::AncrStateOneBud => 9,
        SettingId::AncrStateTwoBuds => 10,
        SettingId::MultipointEnable => 11,
        SettingId::AncrGestureLoop => 12,
        SettingId::CurrentAncrState => 13,
        SettingId::OttsMode => 14,
        SettingId::VolumeEqEnable => 15,
        SettingId::CurrentUserEq => 16,
        SettingId::VolumeAsymmetry => 17,
        SettingId::LastSavedUserEq => 18,
        SettingId::SumToMono => 19,
        SettingId::VolumeExposureNotifications => 21,
        SettingId::SpeechDetection => 22,
        SettingId::Unknown(v) => v,
    }
}

impl SettingId {
    pub fn from_primitive(v: i32) -> (r: Self)
        ensures
            r == setting_id_of(v),
    {
        match v {
            1 => SettingId::AutoOtaEnable,
            2 => SettingId::OhdEnable,
            3 => SettingId::OobeIsFinished,
            4 => SettingId::GestureEnable,
            5 => SettingId::DiagnosticsEnable,
            6 => SettingId::OobeMode,
            7 => SettingId::GestureControl,
            8 => SettingId::AncAccessibilityMode,
            9 => SettingId::AncrStateOneBud,
            10 => SettingId::AncrStateTwoBuds,
            11 => SettingId::MultipointEnable,
            12 => SettingId::AncrGestureLoop,
            13 => SettingId::CurrentAncrState,
            14 => SettingId::OttsMode,
            15 => SettingId::VolumeEqEnable,
            16 => SettingId::CurrentUserEq,
            17 => SettingId::VolumeAsymmetry,
            18 => SettingId::LastSavedUserEq,
            19 => SettingId::SumToMono,
            21 => SettingId::VolumeExposureNotifications,
            22 => SettingId::SpeechDetection,
            _ => SettingId::Unknown(v),
        }
    }

    pub fn to_primitive(self) -> (r: i32)
        ensures
            r == setting_id_value(self),
    {
        match self {
            SettingId::AutoOtaEnable => 1,
            SettingId::OhdEnable => 2,
            SettingId::OobeIsFinished => 3,
            SettingId::GestureEnable => 4,
            SettingId::DiagnosticsEnable => 5,
            SettingId::OobeMode => 6,
            SettingId::GestureControl => 7,
            SettingId::AncAccessibilityMode => 8,
            SettingId::AncrStateOneBud => 9,
            SettingId::AncrStateTwoBuds => 10,
            SettingId::MultipointEnable => 11,
            SettingId::AncrGestureLoop => 12,
            SettingId::CurrentAncrState => 13,
            SettingId::OttsMode => 14,
            SettingId::VolumeEqEnable => 15,
            SettingId::CurrentUserEq => 16,
            SettingId::VolumeAsymmetry => 17,
            SettingId::LastSavedUserEq => 18,
            SettingId::SumToMono => 19,
            SettingId::VolumeExposureNotifications => 21,
            SettingId::SpeechDetection => 22,
            SettingId::Unknown(v) => v,
        }
    }
}

impl From<i32> for SettingId {
    fn from(v: i32) -> (r: Self) {
        SettingId::from_primitive(v)
    }
}

impl vstd::std_specs::convert::FromSpecImpl<i32> for SettingId {
    open spec fn obeys_from_spec() -> bool {
        true
    }

    open spec fn from_spec(v: i32) -> SettingId {
        setting_id_of(v)
    }
}

impl From<SettingId> for i32 {
    fn from(v: SettingId) -> (r: i32) {
        v.to_primitive()
    }
}

impl vstd::std_specs::convert::FromSpecImpl<SettingId> for i32 {
    open spec fn obeys_from_spec() -> bool {
        true
    }

    open spec fn from_spec(v: SettingId) -> i32 {
        setting_id_value(v)
    }
}

/// An action that a hold gesture triggers.
#[derive(Debug, Clone, Copy, PartialEq, Eq, Structural)]
pub enum RegularActionTarget {
    CheckNotifications,
    PreviousTrackRepeat,
    NextTrack,
    PlayPauseTrack,
    AncControl,
    AssistantQuery,
    Unknown(i32),
}

/// The an action that a hold gesture triggers numbered `v`; other numbers are kept in `Unknown`.
pub open spec fn regular_action_target_of(v: i32) -> RegularActionTarget {
    if v == 1 {
        RegularActionTarget::CheckNotifications
    } else if v == 2 {
        RegularActionTarget::PreviousTrackRepeat
    } else if v == 3 {
        RegularActionTarget::NextTrack
    } else if v == 4 {
        RegularActionTarget::PlayPauseTrack
    } else if v == 5 {
        RegularActionTarget::AncControl
    } else if v == 6 {
        RegularActionTarget::AssistantQuery
    } else {
        RegularActionTarget::Unknown(v)
    }
}

/// The number of `x`.
pub open spec fn regular_action_target_value(x: RegularActionTarget) -> i32 {
    match x {
        RegularActionTarget::CheckNotifications => 1,
        RegularActionTarget::PreviousTrackRepeat => 2,
        RegularActionTarget::NextTrack => 3,
        RegularActionTarget::PlayPauseTrack => 4,
        RegularActionTarget::AncControl => 5,
        RegularActionTarget::AssistantQuery => 6,
        RegularActionTarget::Unknown(v) => v,
    }
}

impl RegularActionTarget {
    pub fn from_primitive(v: i32) -> (r: Self)
        ensures
            r == regular_action_target_of(v),
    {
        match v {
            1 => RegularActionTarget::CheckNotifications,
            2 => RegularActionTarget::PreviousTrackRepeat,
            3 => RegularActionTarget::NextTrack,
            4 => RegularActionTarget::PlayPauseTrack,
            5 => RegularActionTarget::AncControl,
            6 => RegularActionTarget::AssistantQuery,
            _ => RegularActionTarget::Unknown(v),
        }
    }

    pub fn to_primitive(self) -> (r: i32)
        ensures
            r == regular_action_target_value(self),
    {
        match self {
            RegularActionTarget::CheckNotifications => 1,
            RegularActionTarget::PreviousTrackRepeat => 2,
            RegularActionTarget::NextTrack => 3,
            RegularActionTarget::PlayPauseTrack => 4,
            RegularActionTarget::AncControl => 5,
            RegularActionTarget::AssistantQuery => 6,
            RegularActionTarget::Unknown(v) => v,
        }
    }
}

impl From<i32> for RegularActionTarget {
    fn from(v: i32) -> (r: Self) {
        RegularActionTarget::from_primitive(v)
    }
}

impl vstd::std_specs::convert::FromSpecImpl<i32> for RegularActionTarget {
    open spec fn obeys_from_spec() -> bool {
        true
    }

    open spec fn from_spec(v: i32) -> RegularActionTarget {
        regular_action_target_of(v)
    }
}

impl From<RegularActionTarget> for i32 {
    fn from(v: RegularActionTarget) -> (r: i32) {
        v.to_primitive()
    }
}

impl vstd::std_specs::convert::FromSpecImpl<RegularActionTarget> for i32 {
    open spec fn obeys_from_spec() -> bool {
        true
    }

    open spec fn from_spec(v: RegularActionTarget) -> i32 {
        regular_action_target_value(v)
    }
}

/// The short name of action `a`.
pub open spec fn action_name(a: RegularActionTarget) -> &'static str {
    match a {
        RegularActionTarget::CheckNotifications => "check-notifications",
        RegularActionTarget::PreviousTrackRepeat => "previous",
        RegularActionTarget::NextTrack => "next",
        RegularActionTarget::PlayPauseTrack => "play-pause",
        RegularActionTarget::AncControl => "anc",
        RegularActionTarget::AssistantQuery => "assistant",
        RegularActionTarget::Unknown(_) => "unknown",
    }
}

impl RegularActionTarget {
    /// A short name of the action.
    pub fn as_str(&self) -> (r: &'static str)
        ensures
            r == action_name(*self),
    {
        match self {
            RegularActionTarget::CheckNotifications => "check-notifications",
            RegularActionTarget::PreviousTrackRepeat => "previous",
            RegularActionTarget::NextTrack => "next",
            RegularActionTarget::PlayPauseTrack => "play-pause",
            RegularActionTarget::AncControl => "anc",
            RegularActionTarget::AssistantQuery => "assistant",
            RegularActionTarget::Unknown(_) => "unknown",
        }
    }
}

/// The actions of the left and the right hold gesture.
#[derive(Debug, Clone, Copy, PartialEq, Eq, Structural)]
pub struct GestureControl {
    pub left: RegularActionTarget,
    pub right: RegularActionTarget,
}

impl Default for GestureControl {
    fn default() -> (r: Self)
        ensures
            r == (GestureControl { left: RegularActionTarget::AncControl, right: RegularActionTarget::AncControl }),
    {
        GestureControl { left: RegularActionTarget::AncControl, right: RegularActionTarget::AncControl }
    }
}

/// The noise-control modes that the gesture cycles through.
#[derive(Debug, Clone, Copy, PartialEq, Eq, Structural)]
pub struct AncrGestureLoop {
    pub active: bool,
    pub off: bool,
    pub aware: bool,
}

impl AncrGestureLoop {
    /// A loop needs at least two modes.
    pub fn is_valid(&self) -> (r: bool)
        ensures
            r == ((self.active as int) + (self.off as int) + (self.aware as int) >= 2),
    {
        (self.active as u32 + self.off as u32 + self.aware as u32) >= 2
    }
}

/// A noise-control mode.
#[derive(Debug, Clone, Copy, PartialEq, Eq, Structural)]
pub enum AncState {
    Off,
    Active,
    Aware,
    Unknown(i32),
}

/// The a noise-control mode numbered `v`; other numbers are kept in `Unknown`.
pub open spec fn anc_state_of(v: i32) -> AncState {
    if v == 1 {
        AncState::Off
    } else if v == 2 {
        AncState::Active
    } else if v == 3 {
        AncState::Aware
    } else {
        AncState::Unknown(v)
    }
}

/// The number of `x`.
pub open spec fn anc_state_value(x: AncState) -> i32 {
    match x {
        AncState::Off => 1,
        AncState::Active => 2,
        AncState::Aware => 3,
        AncState::Unknown(v) => v,
    }
}

impl AncState {
    pub fn from_primitive(v: i32) -> (r: Self)
        ensures
            r == anc_state_of(v),
    {
        match v {
            1 => AncState::Off,
            2 => AncState::Active,
            3 => AncState::Aware,
            _ => AncState::Unknown(v),
        }
    }

    pub fn to_primitive(self) -> (r: i32)
        ensures
            r == anc_state_value(self),
    {
        match self {
            AncState::Off => 1,
            AncState::Active => 2,
            AncState::Aware => 3,
            AncState::Unknown(v) => v,
        }
    }
}

impl From<i32> for AncState {
    fn from(v: i32) -> (r: Self) {
        AncState::from_primitive(v)
    }
}

impl vstd::std_specs::convert::FromSpecImpl<i32> for AncState {
    open spec fn obeys_from_spec() -> bool {
        true
    }

    open spec fn from_spec(v: i32) -> AncState {
        anc_state_of(v)
    }
}

impl From<AncState> for i32 {
    fn from(v: AncState) -> (r: i32) {
        v.to_primitive()
    }
}

impl vstd::std_specs::convert::FromSpecImpl<AncState> for i32 {
    open spec fn obeys_from_spec() -> bool {
        true
    }

    open spec fn from_spec(v: AncState) -> i32 {
        anc_state_value(v)
    }
}

/// The short name of mode `s`.
pub open spec fn anc_state_name(s: AncState) -> &'static str {
    match s {
        AncState::Off => "off",
        AncState::Active => "active",
        AncState::Aware => "aware",
        AncState::Unknown(_) => "unknown",
    }
}

impl AncState {
    /// A short name of the mode.
    pub fn as_str(&self) -> (r: &'static str)
        ensures
            r == anc_state_name(*self),
    {
        match self {
            AncState::Off => "off",
            AncState::Active => "active",
            AncState::Aware => "aware",
            AncState::Unknown(_) => "unknown",
        }
    }
}

impl Default for AncState {
    fn default() -> (r: Self)
        ensures
            r == AncState::Off,
    {
        AncState::Off
    }
}

/// The balance that a raw value stands for: the low bit gives the side, the
/// other bits the amount.
pub open spec fn balance_of_raw(raw: int) -> int {
    if raw % 2 == 1 {
        raw / 2 + 1
    } else {
        -(raw / 2)
    }
}

/// The raw value of a balance.
pub open spec fn raw_of_balance(v: int) -> int {
    if v > 0 {
        (v - 1) * 2 + 1
    } else {
        -v * 2
    }
}

/// The volume balance between the buds, from -100 (left) to 100 (right)
/// when made from a normalized value.
#[derive(Debug, Clone, Copy, PartialEq, Eq, Structural)]
pub struct VolumeAsymmetry {
    value: i32,
}

impl VolumeAsymmetry {
    pub closed spec fn spec_value(&self) -> int {
        self.value as int
    }

    /// The range that every balance stays in, so that its raw value fits.
    pub open spec fn in_range(v: int) -> bool {
        -0x3fff_ffff <= v <= 0x4000_0000
    }

    /// Balance `value`, clamped to -100..=100.
    pub fn from_normalized(value: i32) -> (r: Self)
        ensures
            r.spec_value() == if value < -100 { -100 } else if value > 100 { 100 } else { value as int },
            Self::in_range(r.spec_value()),
    {
        let v = if value < -100 {
            -100
        } else if value > 100 {
            100
        } else {
            value
        };
        VolumeAsymmetry { value: v }
    }

    /// The balance that the raw value `value` stands for.
    pub fn from_raw(value: i32) -> (r: Self)
        ensures
            r.spec_value() == balance_of_raw(value as int),
            Self::in_range(r.spec_value()),
    {
        let q: i32 = value / 2;
        let half: i32 = if value < 0 && q * 2 != value { q - 1 } else { q };
        assert(half == (value as int) / 2);
        let normalized = if value - half * 2 == 1 {
            half + 1
        } else {
            -half
        };
        VolumeAsymmetry { value: normalized }
    }

    /// The raw value of this balance.
    pub fn raw(&self) -> (r: i32)
        requires
            Self::in_range(self.spec_value()),
        ensures
            r == raw_of_balance(self.spec_value()),
    {
        if self.value > 0 {
            (self.value - 1) * 2 + 1
        } else {
            -self.value * 2
        }
    }

    pub fn value(&self) -> (r: i32)
        ensures
            r == self.spec_value(),
    {
        self.value
    }
}

impl Default for VolumeAsymmetry {
    fn default() -> (r: Self)
        ensures
            r.spec_value() == 0,
    {
        VolumeAsymmetry { value: 0 }
    }
}

/// A non-negative raw value comes back unchanged through its balance.
pub proof fn lemma_raw_round_trip(raw: int)
    requires
        0 <= raw,
    ensures
        raw_of_balance(balance_of_raw(raw)) == raw,
{
    let q = raw / 2;
    let r = raw % 2;
    assert(raw == 2 * q + r);
}

} // verus!
