//! Compile-time deployment configuration.
//!
//! All tunables of the device are compile-time constants; nothing is loaded
//! at run time.

use vstd::prelude::*;

verus! {

/// Identifier of this device in every topic it publishes under.
pub const DEVICE_ID: &'static str = "esp32_breadboard";

/// How long the device stays awake per duty cycle, in seconds.
pub const AWAKE_DURATION_SECONDS: u64 = 30;

/// Delay between two acquisition rounds while awake, in seconds.
pub const SAMPLING_INTERVAL_SECONDS: u64 = 15;

/// Width of the status display in pixels.
pub const DISPLAY_WIDTH: u16 = 320;

/// Height of the status display in pixels.
pub const DISPLAY_HEIGHT: u16 = 170;

/// Prefix of the discovery topics understood by the home-automation server.
pub const HOMEASSISTANT_DISCOVERY_TOPIC_PREFIX: &'static str = "homeassistant";

/// Discovery topic segment for plain sensors.
pub const HOMEASSISTANT_SENSOR_TOPIC: &'static str = "sensor";

/// Discovery topic segment for switches such as the pump relay.
pub const HOMEASSISTANT_SENSOR_SWITCH: &'static str = "switch";

/// How long one deep-sleep phase lasts, in seconds: awake time plus sleep
/// time add up to one hour.
pub const DEEP_SLEEP_DURATION_SECONDS: u64 = 3600 - AWAKE_DURATION_SECONDS;

} // verus!
