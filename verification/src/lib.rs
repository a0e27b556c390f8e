//! Core logic of a battery-powered, deep-sleeping plant-care device.
//!
//! The library covers the sensor-acquisition and power-cycle orchestration
//! subsystem: the one-wire sensor protocol decoder, the outlier-trimming
//! sample aggregator, the persistent state cell that survives deep sleep,
//! the duty-cycle state machine, and the decision logic of the reporting
//! path (publish gating, pump trigger and drainage-water interlock).
//! Hardware bring-up, networking and the display are collaborators that
//! live outside the library and only exchange plain values with it.

pub mod aggregate;
pub mod clock;
pub mod config;
pub mod dht11;
pub mod domain;
pub mod duty;
pub mod fabric;
pub mod rtc_memory;
pub mod sensors;
pub mod text;
pub mod update;
