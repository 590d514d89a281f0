use vstd::prelude::*;

verus! {

/// Return peaks with the closest detection first.
pub const acc_detector_distance_peak_sorting_t_ACC_DETECTOR_DISTANCE_PEAK_SORTING_CLOSEST:
    acc_detector_distance_peak_sorting_t = 0;
/// Return peaks with the peak with the highest RCS first.
pub const acc_detector_distance_peak_sorting_t_ACC_DETECTOR_DISTANCE_PEAK_SORTING_STRONGEST:
    acc_detector_distance_peak_sorting_t = 1;
/// Enum for peak sorting algorithms.
pub type acc_detector_distance_peak_sorting_t = cty::c_uint;

/// Compares processed data against a fixed amplitude value.
pub const acc_detector_distance_threshold_method_t_ACC_DETECTOR_DISTANCE_THRESHOLD_METHOD_FIXED_AMPLITUDE:
    acc_detector_distance_threshold_method_t = 0;
/// Compares processed data against a fixed strength value.
pub const acc_detector_distance_threshold_method_t_ACC_DETECTOR_DISTANCE_THRESHOLD_METHOD_FIXED_STRENGTH:
    acc_detector_distance_threshold_method_t = 1;
/// Compares processed data against a recorded threshold.
pub const acc_detector_distance_threshold_method_t_ACC_DETECTOR_DISTANCE_THRESHOLD_METHOD_RECORDED:
    acc_detector_distance_threshold_method_t = 2;
/// Uses the CFAR algorithm as a threshold.
pub const acc_detector_distance_threshold_method_t_ACC_DETECTOR_DISTANCE_THRESHOLD_METHOD_CFAR:
    acc_detector_distance_threshold_method_t = 3;
/// Enum for threshold methods.
pub type acc_detector_distance_threshold_method_t = cty::c_uint;

/// Use a generic reflector shape for RCS calculation.
pub const acc_detector_distance_reflector_shape_t_ACC_DETECTOR_DISTANCE_REFLECTOR_SHAPE_GENERIC:
    acc_detector_distance_reflector_shape_t = 0;
/// Use a planar reflector shape for RCS calculation.
pub const acc_detector_distance_reflector_shape_t_ACC_DETECTOR_DISTANCE_REFLECTOR_SHAPE_PLANAR:
    acc_detector_distance_reflector_shape_t = 1;
/// Enum for reflector shapes.
pub type acc_detector_distance_reflector_shape_t = cty::c_uint;

} // verus!
