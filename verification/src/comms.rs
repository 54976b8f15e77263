//! Wire-protocol message types: the paired tagged unions a client sends to
//! the daemon and the daemon sends back.
//!
//! The library defines the messages and what each request does to the
//! daemon's state; encoding them to bytes and moving them over the control
//! socket is the surrounding application's job.

use vstd::prelude::*;

verus! {

/// A request sent to the daemon.
pub enum DaemonCommand {
    /// Sets the cooling fan speed; 0 means automatic.
    SetFanSpeed { rpm: i32 },
    /// Asks for the fan speed the hardware reports.
    GetFanSpeed,
    /// Sets the power mode and the two boost levels.
    SetPowerMode { pwr: u8, cpu: u8, gpu: u8 },
    /// Asks for the power mode the hardware reports.
    GetPwrLevel,
    /// Asks for the CPU boost level the hardware reports.
    GetCPUBoost,
    /// Asks for the GPU boost level the hardware reports.
    GetGPUBoost,
    /// Asks for the colour bytes of one effect layer.
    GetKeyboardRGB { layer: i32 },
    /// Asks for the configured fan speed and power mode.
    GetCfg,
    /// Replaces the active effect layer with a new effect.
    SetEffect { name: String, params: Vec<u8> },
}

/// The daemon's answer to a request, one variant per request kind.
pub enum DaemonResponse {
    SetFanSpeed { result: bool },
    GetFanSpeed { rpm: i32 },
    SetPowerMode { result: bool },
    GetPwrLevel { pwr: u8 },
    GetCPUBoost { cpu: u8 },
    GetGPUBoost { gpu: u8 },
    GetKeyboardRGB { layer: i32, rgbdata: Vec<u8> },
    GetCfg { fan_rpm: i32, pwr: u8 },
    SetEffect { result: bool },
}

} // verus!
