//! Models of the A121 radar system software objects that the firmware drives.

pub mod acc_definitions_a121;
pub mod acc_detector_distance_definitions;
pub mod detector_distance;
pub mod rss;
