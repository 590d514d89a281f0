//! Host-independent core of a garage backup sensor built on the Acconeer A121
//! radar: the distance-detector presets, the detector's buffer bookkeeping,
//! the HAL record handed to the radar system software, and the size header
//! that the firmware's allocator hooks put in front of every block.
#![allow(non_camel_case_types, non_upper_case_globals)]

pub mod a121;
pub mod heap_header;
