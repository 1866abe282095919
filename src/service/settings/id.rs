//! One marker type per setting, each naming its identifier.

use vstd::prelude::*;
use super::SettingId;

verus! {

pub struct AutoOtaEnable;

impl AutoOtaEnable {
    pub fn id(&self) -> (r: SettingId)
        ensures
            r == SettingId::AutoOtaEnable,
    {
        SettingId::AutoOtaEnable
    }
}

pub struct OhdEnable;

impl OhdEnable {
    pub fn id(&self) -> (r: SettingId)
        ensures
            r == SettingId::OhdEnable,
    {
        SettingId::OhdEnable
    }
}

pub struct OobeIsFinished;

impl OobeIsFinished {
    pub fn id(&self) -> (r: SettingId)
        ensures
            r == SettingId::OobeIsFinished,
    {
        SettingId::OobeIsFinished
    }
}

pub struct GestureEnable;

impl GestureEnable {
    pub fn id(&self) -> (r: SettingId)
        ensures
            r == SettingId::GestureEnable,
    {
        SettingId::GestureEnable
    }
}

pub struct DiagnosticsEnable;

impl DiagnosticsEnable {
    pub fn id(&self) -> (r: SettingId)
        ensures
            r == SettingId::DiagnosticsEnable,
    {
        SettingId::DiagnosticsEnable
    }
}

pub struct OobeMode;

impl OobeMode {
    pub fn id(&self) -> (r: SettingId)
        ensures
            r == SettingId::OobeMode,
    {
        SettingId::OobeMode
    }
}

pub struct GestureControl;

impl GestureControl {
    pub fn id(&self) -> (r: SettingId)
        ensures
            r == SettingId::GestureControl,
    {
        SettingId::GestureControl
    }
}

pub struct MultipointEnable;

impl MultipointEnable {
    pub fn id(&self) -> (r: SettingId)
        ensures
            r == SettingId::MultipointEnable,
    {
        SettingId::MultipointEnable
    }
}

pub struct AncrGestureLoop;

impl AncrGestureLoop {
    pub fn id(&self) -> (r: SettingId)
        ensures
            r == SettingId::AncrGestureLoop,
    {
        SettingId::AncrGestureLoop
    }
}

pub struct CurrentAncrState;

impl CurrentAncrState {
    pub fn id(&self) -> (r: SettingId)
        ensures
            r == SettingId::CurrentAncrState,
    {
        SettingId::CurrentAncrState
    }
}

pub struct OttsMode;

impl OttsMode {
    pub fn id(&self) -> (r: SettingId)
        ensures
            r == SettingId::OttsMode,
    {
        SettingId::OttsMode
    }
}

pub struct VolumeEqEnable;

impl VolumeEqEnable {
    pub fn id(&self) -> (r: SettingId)
        ensures
            r == SettingId::VolumeEqEnable,
    {
        SettingId::VolumeEqEnable
    }
}

pub struct CurrentUserEq;

impl CurrentUserEq {
    pub fn id(&self) -> (r: SettingId)
        ensures
            r == SettingId::CurrentUserEq,
    {
        SettingId::CurrentUserEq
    }
}

pub struct VolumeAsymmetry;

impl VolumeAsymmetry {
    pub fn id(&self) -> (r: SettingId)
        ensures
            r == SettingId::VolumeAsymmetry,
    {
        SettingId::VolumeAsymmetry
    }
}

pub struct SumToMono;

impl SumToMono {
    pub fn id(&self) -> (r: SettingId)
        ensures
            r == SettingId::SumToMono,
    {
        SettingId::SumToMono
    }
}

pub struct VolumeExposureNotifications;

impl VolumeExposureNotifications {
    pub fn id(&self) -> (r: SettingId)
        ensures
            r == SettingId::VolumeExposureNotifications,
    {
        SettingId::VolumeExposureNotifications
    }
}

pub struct SpeechDetection;

impl SpeechDetection {
    pub fn id(&self) -> (r: SettingId)
        ensures
            r == SettingId::SpeechDetection,
    {
        SettingId::SpeechDetection
    }
}

} // verus!
