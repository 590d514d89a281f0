//! The distance detector: its preset configurations and the buffers a
//! detector instance asks for.
//!
//! The detector's configuration setters take floating-point lengths and
//! ratios. Here lengths are kept in millimetres and the two ratios in
//! thousandths, which represent every preset value exactly.

use vstd::prelude::*;
use crate::a121::acc_definitions_a121::{
    acc_config_profile_t,
    acc_config_profile_t_ACC_CONFIG_PROFILE_3,
    acc_config_profile_t_ACC_CONFIG_PROFILE_5,
};
use crate::a121::acc_detector_distance_definitions::{
    acc_detector_distance_peak_sorting_t,
    acc_detector_distance_peak_sorting_t_ACC_DETECTOR_DISTANCE_PEAK_SORTING_STRONGEST,
    acc_detector_distance_reflector_shape_t,
    acc_detector_distance_reflector_shape_t_ACC_DETECTOR_DISTANCE_REFLECTOR_SHAPE_GENERIC,
    acc_detector_distance_threshold_method_t,
    acc_detector_distance_threshold_method_t_ACC_DETECTOR_DISTANCE_THRESHOLD_METHOD_CFAR,
};

verus! {

/// Preset configurations of the distance detector.
#[derive(Clone, Copy, PartialEq, Eq, Structural, Debug)]
pub enum DistancePresetConfig {
    /// Leave the configuration as it is.
    NoPreset,
    /// Balanced between accuracy and power.
    Balanced,
    /// Highest distance accuracy.
    HighAccuracy,
}

/// Every value that a preset writes into a distance detector configuration.
#[derive(Clone, Copy, PartialEq, Eq, Structural, Debug)]
pub struct DistanceSettings {
    /// Start of the measured interval, in millimetres.
    pub start_mm: u32,
    /// End of the measured interval, in millimetres.
    pub end_mm: u32,
    /// Maximum step length between measured points.
    pub max_step_length: u16,
    /// Highest sensor profile the detector may use.
    pub max_profile: acc_config_profile_t,
    /// Reflector shape assumed for the RCS calculation.
    pub reflector_shape: acc_detector_distance_reflector_shape_t,
    /// Order in which peaks are reported.
    pub peak_sorting: acc_detector_distance_peak_sorting_t,
    /// How the detection threshold is formed.
    pub threshold_method: acc_detector_distance_threshold_method_t,
    /// Number of frames recorded for a recorded threshold.
    pub num_frames_recorded_threshold: u16,
    /// Threshold sensitivity, in thousandths.
    pub threshold_sensitivity_milli: u32,
    /// Signal quality, in thousandths.
    pub signal_quality_milli: u32,
    /// Whether close range leakage cancellation is on.
    pub close_range_leakage_cancellation: bool,
}

/// The settings a preset writes; `None` for the preset that writes nothing.
pub open spec fn preset_settings(preset: DistancePresetConfig) -> Option<DistanceSettings> {
    match preset {
        DistancePresetConfig::NoPreset => Option::None,
        DistancePresetConfig::Balanced => Some(
            DistanceSettings {
                start_mm: 250,
                end_mm: 3000,
                max_step_length: 0,
                max_profile: acc_config_profile_t_ACC_CONFIG_PROFILE_5,
                reflector_shape:
                    acc_detector_distance_reflector_shape_t_ACC_DETECTOR_DISTANCE_REFLECTOR_SHAPE_GENERIC,
                peak_sorting:
                    acc_detector_distance_peak_sorting_t_ACC_DETECTOR_DISTANCE_PEAK_SORTING_STRONGEST,
                threshold_method:
                    acc_detector_distance_threshold_method_t_ACC_DETECTOR_DISTANCE_THRESHOLD_METHOD_CFAR,
                num_frames_recorded_threshold: 100,
                threshold_sensitivity_milli: 500,
                signal_quality_milli: 15000,
                close_range_leakage_cancellation: false,
            },
        ),
        DistancePresetConfig::HighAccuracy => Some(
            DistanceSettings {
                start_mm: 250,
                end_mm: 3000,
                max_step_length: 2,
                max_profile: acc_config_profile_t_ACC_CONFIG_PROFILE_3,
                reflector_shape:
                    acc_detector_distance_reflector_shape_t_ACC_DETECTOR_DISTANCE_REFLECTOR_SHAPE_GENERIC,
                peak_sorting:
                    acc_detector_distance_peak_sorting_t_ACC_DETECTOR_DISTANCE_PEAK_SORTING_STRONGEST,
                threshold_method:
                    acc_detector_distance_threshold_method_t_ACC_DETECTOR_DISTANCE_THRESHOLD_METHOD_CFAR,
                num_frames_recorded_threshold: 100,
                threshold_sensitivity_milli: 500,
                signal_quality_milli: 20000,
                close_range_leakage_cancellation: false,
            },
        ),
    }
}

/// What a configuration holds after `preset` is applied to a configuration
/// holding `current`: the preset's settings, or `current` for the preset
/// that writes nothing.
pub open spec fn configured(
    current: Option<DistanceSettings>,
    preset: DistancePresetConfig,
) -> Option<DistanceSettings> {
    match preset_settings(preset) {
        Some(settings) => Some(settings),
        Option::None => current,
    }
}

impl DistancePresetConfig {
    /// The settings this preset writes, or `None` for the preset that writes
    /// nothing.
    pub fn settings(&self) -> (r: Option<DistanceSettings>)
        ensures
            r == preset_settings(*self),
    {
        match self {
            DistancePresetConfig::NoPreset => Option::None,
            DistancePresetConfig::Balanced => Some(
                DistanceSettings {
                    start_mm: 250,
                    end_mm: 3000,
                    max_step_length: 0,
                    max_profile: acc_config_profile_t_ACC_CONFIG_PROFILE_5,
                    reflector_shape:
                        acc_detector_distance_reflector_shape_t_ACC_DETECTOR_DISTANCE_REFLECTOR_SHAPE_GENERIC,
                    peak_sorting:
                        acc_detector_distance_peak_sorting_t_ACC_DETECTOR_DISTANCE_PEAK_SORTING_STRONGEST,
                    threshold_method:
                        acc_detector_distance_threshold_method_t_ACC_DETECTOR_DISTANCE_THRESHOLD_METHOD_CFAR,
                    num_frames_recorded_threshold: 100,
                    threshold_sensitivity_milli: 500,
                    signal_quality_milli: 15000,
                    close_range_leakage_cancellation: false,
                },
            ),
            DistancePresetConfig::HighAccuracy => Some(
                DistanceSettings {
                    start_mm: 250,
                    end_mm: 3000,
                    max_step_length: 2,
                    max_profile: acc_config_profile_t_ACC_CONFIG_PROFILE_3,
                    reflector_shape:
                        acc_detector_distance_reflector_shape_t_ACC_DETECTOR_DISTANCE_REFLECTOR_SHAPE_GENERIC,
                    peak_sorting:
                        acc_detector_distance_peak_sorting_t_ACC_DETECTOR_DISTANCE_PEAK_SORTING_STRONGEST,
                    threshold_method:
                        acc_detector_distance_threshold_method_t_ACC_DETECTOR_DISTANCE_THRESHOLD_METHOD_CFAR,
                    num_frames_recorded_threshold: 100,
                    threshold_sensitivity_milli: 500,
                    signal_quality_milli: 20000,
                    close_range_leakage_cancellation: false,
                },
            ),
        }
    }
}

/// Distance detector configuration.
///
/// Its view is `None` while no preset has written it (every setting is the
/// radar software's default) and the settings last written otherwise.
pub struct Config {
    settings: Option<DistanceSettings>,
}

impl View for Config {
    type V = Option<DistanceSettings>;

    closed spec fn view(&self) -> Option<DistanceSettings> {
        self.settings
    }
}

impl Config {
    /// A fresh configuration with `preset` applied.
    pub fn new(preset: DistancePresetConfig) -> (conf: Self)
        ensures
            conf@ == preset_settings(preset),
    {
        let mut conf = Self::default();
        conf.set_config(preset);
        conf
    }

    /// Writes every setting of `preset`; the `None` preset writes nothing.
    pub fn set_config(&mut self, preset: DistancePresetConfig)
        ensures
            final(self)@ == configured(old(self)@, preset),
    {
        match preset.settings() {
            Some(settings) => {
                self.settings = Some(settings);
            },
            Option::None => {},
        }
    }

    /// The settings written so far, `None` while the defaults stand.
    pub fn settings(&self) -> (r: Option<DistanceSettings>)
        ensures
            r == self@,
    {
        self.settings
    }
}

impl Default for Config {
    /// A configuration that no preset has written.
    fn default() -> (conf: Self)
        ensures
            conf@ == Option::<DistanceSettings>::None,
    {
        Config { settings: Option::None }
    }
}

/// A fresh configuration with a preset applied equals the default
/// configuration with that preset applied by `set_config`.
pub proof fn lemma_new_is_default_then_set_config(preset: DistancePresetConfig)
    ensures
        preset_settings(preset) == configured(Option::None, preset),
{
}

/// Applying the same preset twice is the same as applying it once.
pub proof fn lemma_set_config_idempotent(
    current: Option<DistanceSettings>,
    preset: DistancePresetConfig,
)
    ensures
        configured(configured(current, preset), preset) == configured(current, preset),
{
}

/// The `None` preset leaves any configuration as it is.
pub proof fn lemma_set_config_none_keeps(current: Option<DistanceSettings>)
    ensures
        configured(current, DistancePresetConfig::NoPreset) == current,
{
}

/// A preset other than `None` overwrites whatever an earlier preset wrote:
/// the configuration no longer depends on what it held before.
pub proof fn lemma_last_preset_wins(
    current: Option<DistanceSettings>,
    first: DistancePresetConfig,
    second: DistancePresetConfig,
)
    requires
        second != DistancePresetConfig::NoPreset,
    ensures
        configured(configured(current, first), second) == preset_settings(second),
        configured(current, second) == preset_settings(second),
{
}

/// The values each preset writes, field by field: both measure from 0.25 m to
/// 3 m with a generic reflector, strongest peak first, a CFAR threshold of
/// sensitivity 0.5 recorded over 100 frames and no close range leakage
/// cancellation; Balanced uses step length 0, profile 5 and signal quality
/// 15, HighAccuracy step length 2, profile 3 and signal quality 20.
pub proof fn lemma_preset_values(preset: DistancePresetConfig)
    ensures
        preset == DistancePresetConfig::NoPreset <==> preset_settings(preset) is None,
        preset != DistancePresetConfig::NoPreset ==> {
            let s = preset_settings(preset).unwrap();
            &&& s.start_mm == 250
            &&& s.end_mm == 3000
            &&& s.reflector_shape == 0
            &&& s.peak_sorting == 1
            &&& s.threshold_method == 3
            &&& s.num_frames_recorded_threshold == 100
            &&& s.threshold_sensitivity_milli == 500
            &&& !s.close_range_leakage_cancellation
        },
        preset == DistancePresetConfig::Balanced ==> {
            let s = preset_settings(preset).unwrap();
            &&& s.max_step_length == 0
            &&& s.max_profile == 5
            &&& s.signal_quality_milli == 15000
        },
        preset == DistancePresetConfig::HighAccuracy ==> {
            let s = preset_settings(preset).unwrap();
            &&& s.max_step_length == 2
            &&& s.max_profile == 3
            &&& s.signal_quality_milli == 20000
        },
{
}

/// Every preset that writes settings measures from 0.25 m to 3 m, a non-empty
/// interval, with peaks sorted strongest first and a CFAR threshold.
pub proof fn lemma_presets_share_interval(preset: DistancePresetConfig)
    requires
        preset != DistancePresetConfig::NoPreset,
    ensures
        preset_settings(preset) is Some,
        preset_settings(preset).unwrap().start_mm == 250,
        preset_settings(preset).unwrap().end_mm == 3000,
        preset_settings(preset).unwrap().start_mm < preset_settings(preset).unwrap().end_mm,
        preset_settings(preset).unwrap().peak_sorting
            == acc_detector_distance_peak_sorting_t_ACC_DETECTOR_DISTANCE_PEAK_SORTING_STRONGEST,
        preset_settings(preset).unwrap().threshold_method
            == acc_detector_distance_threshold_method_t_ACC_DETECTOR_DISTANCE_THRESHOLD_METHOD_CFAR,
{
}

/// `len` zero bytes.
pub open spec fn zeros(len: nat) -> Seq<u8> {
    Seq::new(len, |i: int| 0u8)
}

/// `zeros(len)` has exactly `len` bytes and every one of them is zero.
pub proof fn lemma_zeros_exact(len: nat)
    ensures
        zeros(len).len() == len,
        forall|i: int| 0 <= i < len ==> zeros(len)[i] == 0u8,
{
}

/// A buffer of `len` zero bytes.
pub fn zeroed_buffer(len: u32) -> (buffer: Vec<u8>)
    ensures
        buffer@ == zeros(len as nat),
        buffer@.len() == len,
        forall|i: int| 0 <= i < len ==> buffer@[i] == 0u8,
{
    let n = len as usize;
    let mut buffer: Vec<u8> = Vec::with_capacity(n);
    let mut i: usize = 0;
    while i < n
        invariant
            i <= n,
            n == len,
            buffer@.len() == i,
            forall|j: int| 0 <= j < i ==> buffer@[j] == 0u8,
        decreases n - i,
    {
        buffer.push(0u8);
        i = i + 1;
    }
    assert(buffer@ =~= zeros(len as nat));
    buffer
}

/// A distance detector instance, seen through the buffer sizes it reports:
/// the size of the working buffer and of the calibration buffer.
pub struct Handle {
    buffer_size: u32,
    calibration_buffer_size: u32,
}

impl View for Handle {
    type V = (u32, u32);

    closed spec fn view(&self) -> (u32, u32) {
        (self.buffer_size, self.calibration_buffer_size)
    }
}

impl Handle {
    /// A detector that reported the given working and calibration buffer
    /// sizes.
    pub fn new(buffer_size: u32, calibration_buffer_size: u32) -> (handle: Self)
        ensures
            handle@ == (buffer_size, calibration_buffer_size),
    {
        Handle { buffer_size, calibration_buffer_size }
    }

    /// Size of the working buffer the detector needs.
    pub fn get_buffer_size(&self) -> (r: u32)
        ensures
            r == self@.0,
    {
        Self::get_buffer_sizes(self).0
    }

    /// Size of the calibration buffer the detector needs.
    pub fn get_calibration_buffer_size(&self) -> (r: u32)
        ensures
            r == self@.1,
    {
        Self::get_buffer_sizes(self).1
    }

    fn get_buffer_sizes(handle: &Handle) -> (r: (u32, u32))
        ensures
            r == handle@,
    {
        (handle.buffer_size, handle.calibration_buffer_size)
    }

    /// Zeroed working and calibration buffers of the sizes the detector
    /// reported.
    pub fn allocate_buffers(&self) -> (r: (Vec<u8>, Vec<u8>))
        ensures
            r.0@ == zeros(self@.0 as nat),
            r.1@ == zeros(self@.1 as nat),
            r.0@.len() == self@.0,
            r.1@.len() == self@.1,
            forall|i: int| 0 <= i < r.0@.len() ==> r.0@[i] == 0u8,
            forall|i: int| 0 <= i < r.1@.len() ==> r.1@[i] == 0u8,
    {
        let buffer = zeroed_buffer(self.get_buffer_size());
        let calibration_buffer = zeroed_buffer(self.get_calibration_buffer_size());
        (buffer, calibration_buffer)
    }
}

} // verus!
