use garage_backup_sensor::a121::acc_definitions_a121::{
    acc_config_profile_t_ACC_CONFIG_PROFILE_3, acc_config_profile_t_ACC_CONFIG_PROFILE_5,
};
use garage_backup_sensor::a121::acc_detector_distance_definitions::{
    acc_detector_distance_peak_sorting_t_ACC_DETECTOR_DISTANCE_PEAK_SORTING_STRONGEST,
    acc_detector_distance_reflector_shape_t_ACC_DETECTOR_DISTANCE_REFLECTOR_SHAPE_GENERIC,
    acc_detector_distance_threshold_method_t_ACC_DETECTOR_DISTANCE_THRESHOLD_METHOD_CFAR,
};
use garage_backup_sensor::a121::detector_distance::{
    zeroed_buffer, Config, DistancePresetConfig, DistanceSettings, Handle,
};

fn balanced() -> DistanceSettings {
    DistanceSettings {
        start_mm: 250,
        end_mm: 3000,
        max_step_length: 0,
        max_profile: acc_config_profile_t_ACC_CONFIG_PROFILE_5,
        reflector_shape: acc_detector_distance_reflector_shape_t_ACC_DETECTOR_DISTANCE_REFLECTOR_SHAPE_GENERIC,
        peak_sorting: acc_detector_distance_peak_sorting_t_ACC_DETECTOR_DISTANCE_PEAK_SORTING_STRONGEST,
        threshold_method: acc_detector_distance_threshold_method_t_ACC_DETECTOR_DISTANCE_THRESHOLD_METHOD_CFAR,
        num_frames_recorded_threshold: 100,
        threshold_sensitivity_milli: 500,
        signal_quality_milli: 15000,
        close_range_leakage_cancellation: false,
    }
}

fn high_accuracy() -> DistanceSettings {
    DistanceSettings {
        max_step_length: 2,
        max_profile: acc_config_profile_t_ACC_CONFIG_PROFILE_3,
        signal_quality_milli: 20000,
        ..balanced()
    }
}

#[test]
fn balanced_preset_values() {
    let conf = Config::new(DistancePresetConfig::Balanced);
    assert_eq!(conf.settings(), Some(balanced()));
    let s = conf.settings().unwrap();
    assert_eq!(s.start_mm, 250);
    assert_eq!(s.end_mm, 3000);
    assert_eq!(s.max_step_length, 0);
    assert_eq!(s.max_profile, 5);
    assert_eq!(s.signal_quality_milli, 15000);
    assert_eq!(s.threshold_sensitivity_milli, 500);
    assert_eq!(s.num_frames_recorded_threshold, 100);
    assert!(!s.close_range_leakage_cancellation);
}

#[test]
fn high_accuracy_preset_values() {
    let conf = Config::new(DistancePresetConfig::HighAccuracy);
    assert_eq!(conf.settings(), Some(high_accuracy()));
    let s = conf.settings().unwrap();
    assert_eq!(s.max_step_length, 2);
    assert_eq!(s.max_profile, 3);
    assert_eq!(s.signal_quality_milli, 20000);
}

#[test]
fn presets_differ() {
    assert_ne!(
        DistancePresetConfig::Balanced.settings(),
        DistancePresetConfig::HighAccuracy.settings()
    );
    assert_eq!(DistancePresetConfig::NoPreset.settings(), None);
}

#[test]
fn no_preset_writes_nothing() {
    let conf = Config::new(DistancePresetConfig::NoPreset);
    assert_eq!(conf.settings(), None);
    let default_conf: Config = Default::default();
    assert_eq!(default_conf.settings(), None);
}

#[test]
fn new_equals_default_then_set_config() {
    for preset in [
        DistancePresetConfig::NoPreset,
        DistancePresetConfig::Balanced,
        DistancePresetConfig::HighAccuracy,
    ] {
        let mut conf = Config::default();
        conf.set_config(preset);
        assert_eq!(conf.settings(), Config::new(preset).settings());
    }
}

#[test]
fn set_config_idempotent() {
    let mut conf = Config::new(DistancePresetConfig::Balanced);
    conf.set_config(DistancePresetConfig::HighAccuracy);
    let once = conf.settings();
    conf.set_config(DistancePresetConfig::HighAccuracy);
    assert_eq!(conf.settings(), once);
}

#[test]
fn no_preset_keeps_earlier_settings() {
    let mut conf = Config::new(DistancePresetConfig::HighAccuracy);
    conf.set_config(DistancePresetConfig::NoPreset);
    assert_eq!(conf.settings(), Some(high_accuracy()));
}

#[test]
fn last_preset_wins() {
    let mut conf = Config::new(DistancePresetConfig::HighAccuracy);
    conf.set_config(DistancePresetConfig::Balanced);
    assert_eq!(conf.settings(), Some(balanced()));
}

#[test]
fn handle_reports_buffer_sizes() {
    let handle = Handle::new(4096, 512);
    assert_eq!(handle.get_buffer_size(), 4096);
    assert_eq!(handle.get_calibration_buffer_size(), 512);
}

#[test]
fn handle_buffers_are_zeroed_and_sized() {
    let handle = Handle::new(17, 3);
    let (buffer, calibration) = handle.allocate_buffers();
    assert_eq!(buffer, vec![0u8; 17]);
    assert_eq!(calibration, vec![0u8; 3]);
}

#[test]
fn zeroed_buffer_lengths() {
    assert!(zeroed_buffer(0).is_empty());
    assert_eq!(zeroed_buffer(5), vec![0u8; 5]);
}
