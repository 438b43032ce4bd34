//! Devices that the kernel schedules against.
pub mod timer;
