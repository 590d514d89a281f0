use vstd::prelude::*;

verus! {

/// Sensor profile 1 (shortest pulse, best close-range resolution).
pub const acc_config_profile_t_ACC_CONFIG_PROFILE_1: acc_config_profile_t = 1;
/// Sensor profile 2.
pub const acc_config_profile_t_ACC_CONFIG_PROFILE_2: acc_config_profile_t = 2;
/// Sensor profile 3.
pub const acc_config_profile_t_ACC_CONFIG_PROFILE_3: acc_config_profile_t = 3;
/// Sensor profile 4.
pub const acc_config_profile_t_ACC_CONFIG_PROFILE_4: acc_config_profile_t = 4;
/// Sensor profile 5 (longest pulse, best signal-to-noise ratio).
pub const acc_config_profile_t_ACC_CONFIG_PROFILE_5: acc_config_profile_t = 5;

/// Profile selection of the A121 sensor.
pub type acc_config_profile_t = cty::c_uint;

} // verus!
