//! The daemon's persisted configuration: power mode, fan speed, keyboard
//! brightness and the two boost levels.  One process-wide instance is
//! mutated by request handling, persisted on shutdown and loaded at startup;
//! the file I/O itself is the surrounding application's job.

use vstd::prelude::*;

verus! {

/// The daemon's configuration record.  A fan speed of 0 means automatic
/// fan control.
#[derive(Clone, Copy, PartialEq, Eq, Structural, Debug)]
pub struct Configuration {
    pub power_mode: u8,
    pub fan_rpm: i32,
    pub brightness: u8,
    pub cpu_boost: u8,
    pub gpu_boost: u8,
}

impl Configuration {
    /// The defaults used when no configuration file can be read: balanced
    /// power, automatic fan, half brightness, lowest boosts.
    pub fn new() -> (c: Configuration)
        ensures
            c.power_mode == 0,
            c.fan_rpm == 0,
            c.brightness == 128,
            c.cpu_boost == 0,
            c.gpu_boost == 0,
    {
        Configuration { power_mode: 0, fan_rpm: 0, brightness: 128, cpu_boost: 0, gpu_boost: 0 }
    }
}

} // verus!
