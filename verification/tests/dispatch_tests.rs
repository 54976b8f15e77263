use razer_control::comms::DaemonCommand;
use razer_control::comms::DaemonResponse;
use razer_control::config::Configuration;
use razer_control::dispatch::complete_request;
use razer_control::dispatch::process_client_request;
use razer_control::dispatch::DeviceAction;
use razer_control::dispatch::DeviceEvent;
use razer_control::effects::Static;
use razer_control::effects::Effect;
use razer_control::manager::EffectManager;

fn fresh() -> (Configuration, EffectManager) {
    (Configuration::new(), EffectManager::new(0))
}

#[test]
fn configuration_defaults() {
    let c = Configuration::new();
    assert_eq!(c.power_mode, 0);
    assert_eq!(c.fan_rpm, 0);
    assert_eq!(c.brightness, 128);
    assert_eq!(c.cpu_boost, 0);
    assert_eq!(c.gpu_boost, 0);
}

#[test]
fn set_power_mode_updates_and_persists_config_whatever_the_write_says() {
    let (mut cfg, mut mgr) = fresh();
    let cmd = DaemonCommand::SetPowerMode { pwr: 1, cpu: 0, gpu: 0 };
    let plan = process_client_request(&cmd, &mut cfg, &mut mgr, 0);
    assert_eq!(cfg.power_mode, 1);
    assert_eq!(cfg.cpu_boost, 0);
    assert_eq!(cfg.gpu_boost, 0);
    assert!(plan.persist_config);
    assert!(plan.response.is_none());
    assert!(matches!(
        plan.action,
        DeviceAction::SetPower { pwr: 1, cpu: 0, gpu: 0 }
    ));
    // the response carries exactly the device outcome; the configuration
    // stays updated and persisted either way
    let ok = complete_request(&cmd, &DeviceEvent::WriteResult { ok: true });
    assert!(matches!(ok, Some(DaemonResponse::SetPowerMode { result: true })));
    let failed = complete_request(&cmd, &DeviceEvent::WriteResult { ok: false });
    assert!(matches!(failed, Some(DaemonResponse::SetPowerMode { result: false })));
    assert_eq!(cfg.power_mode, 1);
}

#[test]
fn set_fan_speed_updates_config_and_plans_the_write() {
    let (mut cfg, mut mgr) = fresh();
    let cmd = DaemonCommand::SetFanSpeed { rpm: 3400 };
    let plan = process_client_request(&cmd, &mut cfg, &mut mgr, 0);
    assert_eq!(cfg.fan_rpm, 3400);
    assert!(plan.persist_config);
    assert!(matches!(plan.action, DeviceAction::SetFan { rpm: 3400 }));
    let resp = complete_request(&cmd, &DeviceEvent::WriteResult { ok: true });
    assert!(matches!(resp, Some(DaemonResponse::SetFanSpeed { result: true })));
}

#[test]
fn get_cfg_answers_from_configuration_alone() {
    let (mut cfg, mut mgr) = fresh();
    cfg.fan_rpm = 1700;
    cfg.power_mode = 2;
    let plan = process_client_request(&DaemonCommand::GetCfg, &mut cfg, &mut mgr, 0);
    assert!(!plan.persist_config);
    assert!(matches!(plan.action, DeviceAction::NoAction));
    assert!(matches!(
        plan.response,
        Some(DaemonResponse::GetCfg { fan_rpm: 1700, pwr: 2 })
    ));
}

#[test]
fn reads_pass_through_the_device_outcome() {
    let (mut cfg, mut mgr) = fresh();
    let plan = process_client_request(&DaemonCommand::GetFanSpeed, &mut cfg, &mut mgr, 0);
    assert!(matches!(plan.action, DeviceAction::ReadFan));
    assert!(plan.response.is_none());
    let resp = complete_request(&DaemonCommand::GetFanSpeed, &DeviceEvent::FanRpm { rpm: 4200 });
    assert!(matches!(resp, Some(DaemonResponse::GetFanSpeed { rpm: 4200 })));
    let resp = complete_request(&DaemonCommand::GetPwrLevel, &DeviceEvent::ByteValue { value: 2 });
    assert!(matches!(resp, Some(DaemonResponse::GetPwrLevel { pwr: 2 })));
    let resp = complete_request(&DaemonCommand::GetCPUBoost, &DeviceEvent::ByteValue { value: 3 });
    assert!(matches!(resp, Some(DaemonResponse::GetCPUBoost { cpu: 3 })));
    let resp = complete_request(&DaemonCommand::GetGPUBoost, &DeviceEvent::ByteValue { value: 1 });
    assert!(matches!(resp, Some(DaemonResponse::GetGPUBoost { gpu: 1 })));
    // an outcome of the wrong shape yields no response
    let resp = complete_request(&DaemonCommand::GetFanSpeed, &DeviceEvent::NoEvent);
    assert!(resp.is_none());
    let resp = complete_request(&DaemonCommand::GetCfg, &DeviceEvent::NoEvent);
    assert!(resp.is_none());
}

#[test]
fn get_keyboard_rgb_answers_layer_bytes_or_empty() {
    let (mut cfg, mut mgr) = fresh();
    mgr.push_effect(Effect::Static(Static::new(&vec![7, 8, 9])), vec![true; 90]);
    let plan = process_client_request(
        &DaemonCommand::GetKeyboardRGB { layer: 0 },
        &mut cfg,
        &mut mgr,
        0,
    );
    match plan.response {
        Some(DaemonResponse::GetKeyboardRGB { layer, rgbdata }) => {
            assert_eq!(layer, 0);
            assert_eq!(rgbdata.len(), 270);
            assert_eq!(&rgbdata[0..3], &[7, 8, 9]);
        }
        other => panic!("unexpected response: {:?}", other.is_some()),
    }
    let plan = process_client_request(
        &DaemonCommand::GetKeyboardRGB { layer: 3 },
        &mut cfg,
        &mut mgr,
        0,
    );
    match plan.response {
        Some(DaemonResponse::GetKeyboardRGB { layer, rgbdata }) => {
            assert_eq!(layer, 3);
            assert!(rgbdata.is_empty());
        }
        other => panic!("unexpected response: {:?}", other.is_some()),
    }
}

#[test]
fn set_effect_replaces_the_top_layer_with_all_keys_enabled() {
    let (mut cfg, mut mgr) = fresh();
    mgr.push_effect(Effect::Static(Static::new(&vec![1, 1, 1])), vec![false; 90]);
    let cmd = DaemonCommand::SetEffect {
        name: "wave_gradient".to_string(),
        params: vec![255, 0, 0, 0, 0, 255, 0],
    };
    let plan = process_client_request(&cmd, &mut cfg, &mut mgr, 0);
    assert!(matches!(plan.response, Some(DaemonResponse::SetEffect { result: true })));
    assert_eq!(mgr.get_effect_layer_count(), 1);
    let save = mgr.get_save();
    assert_eq!(save[0].name, "Wave Gradient");
    assert!(save[0].mask.iter().all(|&b| b));
}

#[test]
fn set_effect_on_empty_stack_installs_one_layer() {
    let (mut cfg, mut mgr) = fresh();
    let cmd = DaemonCommand::SetEffect { name: "static".to_string(), params: vec![0, 255, 0] };
    let plan = process_client_request(&cmd, &mut cfg, &mut mgr, 0);
    assert!(matches!(plan.response, Some(DaemonResponse::SetEffect { result: true })));
    assert_eq!(mgr.get_effect_layer_count(), 1);
}

#[test]
fn set_effect_with_unknown_name_fails_and_changes_nothing() {
    let (mut cfg, mut mgr) = fresh();
    mgr.push_effect(Effect::Static(Static::new(&vec![1, 1, 1])), vec![true; 90]);
    let cmd = DaemonCommand::SetEffect { name: "sparkle".to_string(), params: vec![1, 2, 3] };
    let plan = process_client_request(&cmd, &mut cfg, &mut mgr, 0);
    assert!(matches!(plan.response, Some(DaemonResponse::SetEffect { result: false })));
    assert_eq!(mgr.get_effect_layer_count(), 1);
    let save = mgr.get_save();
    assert_eq!(save[0].params, vec![1, 1, 1]);
}

#[test]
fn set_effect_with_too_few_params_fails() {
    let (mut cfg, mut mgr) = fresh();
    let cmd = DaemonCommand::SetEffect { name: "breathing_single".to_string(), params: vec![1, 2] };
    let plan = process_client_request(&cmd, &mut cfg, &mut mgr, 0);
    assert!(matches!(plan.response, Some(DaemonResponse::SetEffect { result: false })));
    assert_eq!(mgr.get_effect_layer_count(), 0);
}
