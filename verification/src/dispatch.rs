//! Request dispatch: what each protocol request does to the daemon's state
//! and what must happen at the device interface.
//!
//! Handling a request has two verified halves.  [`process_client_request`]
//! applies every state change (configuration fields, effect layer
//! replacement) and returns a [`RequestPlan`]: the device work still owed,
//! whether the configuration must be persisted, and the response when no
//! device work is needed.  The surrounding application performs the device
//! reads and writes and hands the outcome back to [`complete_request`],
//! which builds the remaining responses.
//!
//! Configuration changes are persisted whatever the device write later
//! reports: the plan's persist flag is set before the write result exists.

use vstd::prelude::*;

use crate::board::TOTAL_KEYS;
use crate::comms::DaemonCommand;
use crate::comms::DaemonResponse;
use crate::config::Configuration;
use crate::effects::effect_from_request_name;
use crate::effects::spec_effect_from_request_name;
use crate::manager::EffectManager;
use crate::manager::LayerView;

verus! {

/// Device-interface work a request still owes: the application performs it
/// and reports the outcome as a [`DeviceEvent`].
pub enum DeviceAction {
    /// No device work.
    NoAction,
    /// Write power mode, then CPU boost, then GPU boost, stopping at the
    /// first failed write.
    SetPower { pwr: u8, cpu: u8, gpu: u8 },
    /// Write the fan speed.
    SetFan { rpm: i32 },
    /// Read the fan speed.
    ReadFan,
    /// Read the power mode.
    ReadPower,
    /// Read the CPU boost level.
    ReadCpuBoost,
    /// Read the GPU boost level.
    ReadGpuBoost,
}

/// The outcome of performed device work.
pub enum DeviceEvent {
    /// No device work was performed.
    NoEvent,
    /// Whether every requested write succeeded.
    WriteResult { ok: bool },
    /// The fan speed a read returned.
    FanRpm { rpm: i32 },
    /// The byte value a read returned.
    ByteValue { value: u8 },
}

/// What is left to do after a request's state changes were applied.
pub struct RequestPlan {
    /// Device work the request still owes.
    pub action: DeviceAction,
    /// Whether the configuration must be written to stable storage.
    pub persist_config: bool,
    /// The response, when it needs no device outcome.
    pub response: Option<DaemonResponse>,
}

/// The all-keys-enabled mask a `SetEffect` request installs its new layer
/// with.
pub open spec fn spec_full_mask() -> Seq<bool> {
    Seq::new(TOTAL_KEYS as nat, |i: int| true)
}

/// The layer stack after a `SetEffect` request: the top layer (if any) is
/// popped and the new effect is pushed with every key enabled.
pub open spec fn spec_replaced_layers(layers: Seq<LayerView>, effect: crate::effects::EffectView) -> Seq<
    LayerView,
> {
    let popped = if layers.len() > 0 {
        layers.drop_last()
    } else {
        layers
    };
    popped.push(LayerView { mask: spec_full_mask(), effect })
}

/// Applies a request's state changes and plans the device work it owes.
///
/// - `GetCfg` answers from the configuration alone.
/// - `SetPowerMode` updates the configuration's power mode and boost levels
///   and owes the three device writes; `SetFanSpeed` updates the fan speed
///   and owes one write.  Both demand persisting the configuration, whatever
///   the writes later report.
/// - The four read requests owe one device read each and change nothing.
/// - `GetKeyboardRGB` answers with the requested layer's colour bytes; a
///   layer that does not exist yields an empty payload.
/// - `SetEffect` replaces the top layer with the named effect over all keys
///   and answers success; an unknown name or too few parameter bytes leaves
///   the stack untouched and answers failure.
pub fn process_client_request(
    cmd: &DaemonCommand,
    cfg: &mut Configuration,
    mgr: &mut EffectManager,
    now_ms: u64,
) -> (r: RequestPlan)
    requires
        old(mgr).wf(),
    ensures
        final(mgr).wf(),
        match *cmd {
            DaemonCommand::GetCfg => {
                &&& *final(cfg) == *old(cfg)
                &&& final(mgr)@ == old(mgr)@
                &&& r.action is NoAction
                &&& !r.persist_config
                &&& r.response matches Some(DaemonResponse::GetCfg { fan_rpm, pwr }) && fan_rpm
                    == old(cfg).fan_rpm && pwr == old(cfg).power_mode
            },
            DaemonCommand::SetPowerMode { pwr, cpu, gpu } => {
                &&& *final(cfg) == (Configuration {
                    power_mode: pwr,
                    cpu_boost: cpu,
                    gpu_boost: gpu,
                    ..*old(cfg)
                })
                &&& final(mgr)@ == old(mgr)@
                &&& r.action matches DeviceAction::SetPower { pwr: p, cpu: c, gpu: g } && p == pwr
                    && c == cpu && g == gpu
                &&& r.persist_config
                &&& r.response is None
            },
            DaemonCommand::SetFanSpeed { rpm } => {
                &&& *final(cfg) == (Configuration { fan_rpm: rpm, ..*old(cfg) })
                &&& final(mgr)@ == old(mgr)@
                &&& r.action matches DeviceAction::SetFan { rpm: x } && x == rpm
                &&& r.persist_config
                &&& r.response is None
            },
            DaemonCommand::GetFanSpeed => {
                &&& *final(cfg) == *old(cfg)
                &&& final(mgr)@ == old(mgr)@
                &&& r.action is ReadFan
                &&& !r.persist_config
                &&& r.response is None
            },
            DaemonCommand::GetPwrLevel => {
                &&& *final(cfg) == *old(cfg)
                &&& final(mgr)@ == old(mgr)@
                &&& r.action is ReadPower
                &&& !r.persist_config
                &&& r.response is None
            },
            DaemonCommand::GetCPUBoost => {
                &&& *final(cfg) == *old(cfg)
                &&& final(mgr)@ == old(mgr)@
                &&& r.action is ReadCpuBoost
                &&& !r.persist_config
                &&& r.response is None
            },
            DaemonCommand::GetGPUBoost => {
                &&& *final(cfg) == *old(cfg)
                &&& final(mgr)@ == old(mgr)@
                &&& r.action is ReadGpuBoost
                &&& !r.persist_config
                &&& r.response is None
            },
            DaemonCommand::GetKeyboardRGB { layer } => {
                &&& *final(cfg) == *old(cfg)
                &&& final(mgr)@ == old(mgr)@
                &&& r.action is NoAction
                &&& !r.persist_config
                &&& r.response matches Some(DaemonResponse::GetKeyboardRGB { layer: l, rgbdata })
                    && l == layer && (0 <= layer < old(mgr)@.layers.len() ==> rgbdata@
                    == crate::board::spec_colour_bytes(
                    old(mgr)@.layers[layer as int].effect.board().keys,
                )) && (!(0 <= layer < old(mgr)@.layers.len()) ==> rgbdata@ == Seq::<u8>::empty())
            },
            DaemonCommand::SetEffect { name, params } => {
                &&& *final(cfg) == *old(cfg)
                &&& r.action is NoAction
                &&& !r.persist_config
                &&& match spec_effect_from_request_name(name@, params@, now_ms) {
                    Some(ev) => {
                        &&& final(mgr)@.layers == spec_replaced_layers(old(mgr)@.layers, ev)
                        &&& final(mgr)@.render == old(mgr)@.render
                        &&& r.response matches Some(DaemonResponse::SetEffect { result }) && result
                    },
                    None => {
                        &&& final(mgr)@ == old(mgr)@
                        &&& r.response matches Some(DaemonResponse::SetEffect { result })
                            && !result
                    },
                }
            },
        },
{
    match cmd {
        DaemonCommand::GetCfg => RequestPlan {
            action: DeviceAction::NoAction,
            persist_config: false,
            response: Some(
                DaemonResponse::GetCfg { fan_rpm: cfg.fan_rpm, pwr: cfg.power_mode },
            ),
        },
        DaemonCommand::SetPowerMode { pwr, cpu, gpu } => {
            cfg.power_mode = *pwr;
            cfg.cpu_boost = *cpu;
            cfg.gpu_boost = *gpu;
            RequestPlan {
                action: DeviceAction::SetPower { pwr: *pwr, cpu: *cpu, gpu: *gpu },
                persist_config: true,
                response: None,
            }
        },
        DaemonCommand::SetFanSpeed { rpm } => {
            cfg.fan_rpm = *rpm;
            RequestPlan {
                action: DeviceAction::SetFan { rpm: *rpm },
                persist_config: true,
                response: None,
            }
        },
        DaemonCommand::GetFanSpeed => RequestPlan {
            action: DeviceAction::ReadFan,
            persist_config: false,
            response: None,
        },
        DaemonCommand::GetPwrLevel => RequestPlan {
            action: DeviceAction::ReadPower,
            persist_config: false,
            response: None,
        },
        DaemonCommand::GetCPUBoost => RequestPlan {
            action: DeviceAction::ReadCpuBoost,
            persist_config: false,
            response: None,
        },
        DaemonCommand::GetGPUBoost => RequestPlan {
            action: DeviceAction::ReadGpuBoost,
            persist_config: false,
            response: None,
        },
        DaemonCommand::GetKeyboardRGB { layer } => {
            let rgbdata = mgr.get_map(*layer);
            RequestPlan {
                action: DeviceAction::NoAction,
                persist_config: false,
                response: Some(DaemonResponse::GetKeyboardRGB { layer: *layer, rgbdata }),
            }
        },
        DaemonCommand::SetEffect { name, params } => {
            match effect_from_request_name(name, params, now_ms) {
                Some(effect) => {
                    mgr.pop_effect();
                    mgr.push_effect(effect, full_mask());
                    proof {
                        assert(mgr@.layers =~= spec_replaced_layers(
                            old(mgr)@.layers,
                            spec_effect_from_request_name(name@, params@, now_ms)->0,
                        ));
                    }
                    RequestPlan {
                        action: DeviceAction::NoAction,
                        persist_config: false,
                        response: Some(DaemonResponse::SetEffect { result: true }),
                    }
                },
                None => RequestPlan {
                    action: DeviceAction::NoAction,
                    persist_config: false,
                    response: Some(DaemonResponse::SetEffect { result: false }),
                },
            }
        },
    }
}

/// Builds the response a request owes once its device work is done: write
/// requests answer with the write outcome, read requests with the value
/// read.  A request that owes no device work, or an outcome of the wrong
/// shape, yields no response.
pub fn complete_request(cmd: &DaemonCommand, event: &DeviceEvent) -> (r: Option<DaemonResponse>)
    ensures
        match *cmd {
            DaemonCommand::SetFanSpeed { .. } => match *event {
                DeviceEvent::WriteResult { ok } => r matches Some(
                    DaemonResponse::SetFanSpeed { result },
                ) && result == ok,
                _ => r is None,
            },
            DaemonCommand::SetPowerMode { .. } => match *event {
                DeviceEvent::WriteResult { ok } => r matches Some(
                    DaemonResponse::SetPowerMode { result },
                ) && result == ok,
                _ => r is None,
            },
            DaemonCommand::GetFanSpeed => match *event {
                DeviceEvent::FanRpm { rpm } => r matches Some(DaemonResponse::GetFanSpeed {
                    rpm: x,
                }) && x == rpm,
                _ => r is None,
            },
            DaemonCommand::GetPwrLevel => match *event {
                DeviceEvent::ByteValue { value } => r matches Some(DaemonResponse::GetPwrLevel {
                    pwr,
                }) && pwr == value,
                _ => r is None,
            },
            DaemonCommand::GetCPUBoost => match *event {
                DeviceEvent::ByteValue { value } => r matches Some(DaemonResponse::GetCPUBoost {
                    cpu,
                }) && cpu == value,
                _ => r is None,
            },
            DaemonCommand::GetGPUBoost => match *event {
                DeviceEvent::ByteValue { value } => r matches Some(DaemonResponse::GetGPUBoost {
                    gpu,
                }) && gpu == value,
                _ => r is None,
            },
            _ => r is None,
        },
{
    match cmd {
        DaemonCommand::SetFanSpeed { .. } => match event {
            DeviceEvent::WriteResult { ok } => Some(DaemonResponse::SetFanSpeed { result: *ok }),
            _ => None,
        },
        DaemonCommand::SetPowerMode { .. } => match event {
            DeviceEvent::WriteResult { ok } => Some(DaemonResponse::SetPowerMode { result: *ok }),
            _ => None,
        },
        DaemonCommand::GetFanSpeed => match event {
            DeviceEvent::FanRpm { rpm } => Some(DaemonResponse::GetFanSpeed { rpm: *rpm }),
            _ => None,
        },
        DaemonCommand::GetPwrLevel => match event {
            DeviceEvent::ByteValue { value } => Some(DaemonResponse::GetPwrLevel { pwr: *value }),
            _ => None,
        },
        DaemonCommand::GetCPUBoost => match event {
            DeviceEvent::ByteValue { value } => Some(DaemonResponse::GetCPUBoost { cpu: *value }),
            _ => None,
        },
        DaemonCommand::GetGPUBoost => match event {
            DeviceEvent::ByteValue { value } => Some(DaemonResponse::GetGPUBoost { gpu: *value }),
            _ => None,
        },
        _ => None,
    }
}

/// The all-keys-enabled mask as a vector of 90 flags.
pub fn full_mask() -> (mask: Vec<bool>)
    ensures
        mask@ == spec_full_mask(),
{
    let mut mask: Vec<bool> = Vec::new();
    let mut i: usize = 0;
    while i < TOTAL_KEYS
        invariant
            i <= TOTAL_KEYS,
            mask@.len() == i,
            forall|j: int| 0 <= j < i ==> mask@[j],
        decreases TOTAL_KEYS - i,
    {
        mask.push(true);
        i = i + 1;
    }
    proof {
        assert(mask@ =~= spec_full_mask());
    }
    mask
}

} // verus!
