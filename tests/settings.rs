use maestro::service::settings::{
    id, AncState, AncrGestureLoop, GestureControl, RegularActionTarget, SettingId, VolumeAsymmetry,
};

#[test]
fn test_volume_assymetry_conversion() {
    for i in 0..=200 {
        assert_eq!(VolumeAsymmetry::from_raw(i).raw(), i)
    }
}

#[test]
fn volume_asymmetry_values() {
    assert_eq!(VolumeAsymmetry::from_raw(1).value(), 1);
    assert_eq!(VolumeAsymmetry::from_raw(2).value(), -1);
    assert_eq!(VolumeAsymmetry::from_raw(199).value(), 100);
    assert_eq!(VolumeAsymmetry::from_raw(-1).value(), 0);
    assert_eq!(VolumeAsymmetry::from_normalized(150).value(), 100);
    assert_eq!(VolumeAsymmetry::from_normalized(-150).value(), -100);
    assert_eq!(VolumeAsymmetry::from_normalized(-100).raw(), 200);
    assert_eq!(VolumeAsymmetry::default().value(), 0);
}

#[test]
fn setting_enums() {
    assert_eq!(SettingId::from(17), SettingId::VolumeAsymmetry);
    assert_eq!(SettingId::from(20), SettingId::Unknown(20));
    assert_eq!(i32::from(SettingId::SpeechDetection), 22);
    assert_eq!(RegularActionTarget::from(6).as_str(), "assistant");
    assert_eq!(RegularActionTarget::Unknown(9).as_str(), "unknown");
    assert_eq!(AncState::from(3), AncState::Aware);
    assert_eq!(AncState::default().as_str(), "off");
    assert_eq!(GestureControl::default().left, RegularActionTarget::AncControl);
    assert!(AncrGestureLoop { active: true, off: false, aware: true }.is_valid());
    assert!(!AncrGestureLoop { active: true, off: false, aware: false }.is_valid());
    assert_eq!(id::CurrentAncrState.id(), SettingId::CurrentAncrState);
}
