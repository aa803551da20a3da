use clearline::desktop::{
    start_minimized_from_args, ClearLineAppState, SettingsLoad, TrayReaction,
};
use clearline::device::{AudioInputDevice, AudioOutputDevice, DeviceId};
use clearline::labels::DeepFilterModelUiStatus;
use clearline::pipeline::{AudioOutputTarget, PipelineState};
use clearline::settings::{
    PersistedSettings, MODE_HIGH_QUALITY, MODE_LOW_LATENCY, OUTPUT_TARGET_VIRTUAL_MIC,
    SETTINGS_VERSION, STRENGTH_BALANCED, STRENGTH_GENTLE, STRENGTH_STRONG,
};
use clearline::suppressor::{SuppressionStrength, SuppressorMode};
use clearline::tray::{TrayEvent, TrayMenuState};
use clearline::ClearLineError;

fn app() -> ClearLineAppState {
    ClearLineAppState::new_without_loading_settings()
}

fn ready_app() -> ClearLineAppState {
    let mut app = app();
    app.devices = vec![AudioInputDevice::new("mic-id", "Mic", true)];
    app.output_devices = vec![AudioOutputDevice::new("cable-id", "CABLE Input", false)];
    app.selected_device_id = Some(DeviceId::new("mic-id"));
    app.selected_output_device_id = Some(DeviceId::new("cable-id"));
    app
}

#[test]
fn fresh_output_selection_prefers_vb_cable_over_default_speakers() {
    let mut app = app();
    app.output_devices = vec![
        AudioOutputDevice::new("default-out", "Default Speakers", true),
        AudioOutputDevice::new("cable-out", "CABLE Input", false),
    ];

    app.ensure_selected_output_device();

    assert_eq!(app.selected_output_device_id.as_ref().unwrap().as_str(), "cable-out");
}

#[test]
fn output_selection_replaces_existing_non_cable_device_with_vb_cable() {
    let mut app = app();
    app.output_devices = vec![
        AudioOutputDevice::new("default-out", "Default Speakers", true),
        AudioOutputDevice::new("cable-out", "CABLE In 16 Ch (VB-Audio Virtual Cable)", false),
    ];
    app.selected_output_device_id = Some(DeviceId::new("default-out"));

    app.ensure_selected_output_device();

    assert_eq!(app.selected_output_device_id.as_ref().unwrap().as_str(), "cable-out");
}

#[test]
fn output_selection_is_empty_when_vb_cable_is_missing() {
    let mut app = app();
    app.output_devices = vec![AudioOutputDevice::new("default-out", "Default Speakers", true)];

    app.ensure_selected_output_device();

    assert_eq!(app.selected_output_device_id, None);
}

#[test]
fn app_settings_snapshot_includes_current_choices() {
    let mut app = app();
    app.devices = vec![AudioInputDevice::new("mic-id", "Saved Mic", true)];
    app.output_devices = vec![AudioOutputDevice::new("out-id", "Saved Output", true)];
    app.selected_device_id = Some(DeviceId::new("mic-id"));
    app.selected_output_device_id = Some(DeviceId::new("out-id"));
    app.suppressor_mode = clearline::app_state::SuppressorModeSelection(SuppressorMode::HighQuality);
    app.suppression_strength = SuppressionStrength::Strong;
    app.wind_noise_reduction_enabled = true;
    app.echo_cancellation_enabled = true;
    app.noise_suppression_enabled = false;
    app.start_on_login_enabled = true;

    let settings = app.persisted_settings_snapshot();

    assert_eq!(settings.input_device_id.as_deref(), Some("mic-id"));
    assert_eq!(settings.input_device_name.as_deref(), Some("Saved Mic"));
    assert_eq!(settings.output_device_id.as_deref(), Some("out-id"));
    assert_eq!(settings.output_device_name.as_deref(), Some("Saved Output"));
    assert_eq!(settings.suppressor_mode, MODE_HIGH_QUALITY);
    assert_eq!(settings.suppression_strength, STRENGTH_STRONG);
    assert!(settings.wind_noise_reduction_enabled);
    assert!(settings.echo_cancellation_enabled);
    assert!(!settings.noise_suppression_enabled);
    assert!(settings.start_on_login_enabled);
    assert!(settings.deepfilter_model_dir.is_empty());
}

#[test]
fn disabling_noise_suppression_uses_bypass_pipeline_mode() {
    let mut app = app();

    assert_eq!(app.effective_suppressor_mode(), SuppressorMode::HighQuality);
    app.noise_suppression_enabled = false;
    assert_eq!(app.effective_suppressor_mode(), SuppressorMode::Bypass);
}

#[test]
fn wind_and_echo_effects_are_gated_by_noise_suppression() {
    let mut app = ready_app();
    app.wind_noise_reduction_enabled = true;
    app.echo_cancellation_enabled = true;
    app.noise_suppression_enabled = false;

    assert!(!app.effective_wind_noise_reduction_enabled());
    assert!(!app.effective_echo_cancellation_enabled());
    let plan = app
        .plan_pipeline_start(DeepFilterModelUiStatus::NotConfigured, None)
        .expect("bypass needs no model");
    assert!(!plan.config.wind_noise_reduction_enabled());
    assert!(!plan.config.echo_cancellation_enabled());
    assert_eq!(plan.config.suppressor_mode(), SuppressorMode::Bypass);
}

#[test]
fn app_updates_tray_menu_state_from_current_settings() {
    let mut app = app();
    app.wind_noise_reduction_enabled = true;
    app.echo_cancellation_enabled = false;
    app.start_on_login_enabled = false;
    assert!(app.begin_start_on_login_change(true));

    assert_eq!(
        app.tray_menu_state(),
        TrayMenuState {
            noise_suppression_enabled: true,
            start_on_login_enabled: true,
            wind_noise_reduction_enabled: true,
            echo_cancellation_enabled: false,
        }
    );
}

#[test]
fn tray_startup_setting_uses_background_task_to_avoid_ui_stall() {
    let mut app = app();

    assert_eq!(app.handle_tray_event(TrayEvent::ToggleStartOnLogin), TrayReaction::ChangeStartOnLogin(true));
    assert_eq!(app.pending_start_on_login_enabled, Some(true));
    assert_eq!(app.status_message, "正在开启开机自启动");
    assert_eq!(app.handle_tray_event(TrayEvent::ToggleStartOnLogin), TrayReaction::Nothing);

    assert!(app.finish_start_on_login_change(true, Ok(())));
    assert!(app.start_on_login_enabled);
    assert_eq!(app.pending_start_on_login_enabled, None);
    assert_eq!(app.status_message, "已开启开机自启动");

    assert_eq!(app.handle_tray_event(TrayEvent::ToggleStartOnLogin), TrayReaction::ChangeStartOnLogin(false));
    assert!(!app.finish_start_on_login_change(false, Err("拒绝访问".to_string())));
    assert!(app.start_on_login_enabled);
    assert_eq!(app.status_message, "开机自启动设置失败：拒绝访问");

    app.begin_start_on_login_change(false);
    app.start_on_login_task_lost();
    assert_eq!(app.pending_start_on_login_enabled, None);
    assert_eq!(app.status_message, "开机自启动设置失败：后台任务已断开");
}

#[test]
fn runtime_control_changes_request_pipeline_restart_when_running() {
    let mut app = ready_app();
    app.noise_suppression_enabled = false;
    let plan = app.start_pipeline_if_ready(DeepFilterModelUiStatus::NotConfigured, None).unwrap();
    app.complete_pipeline_start(plan, Ok(None));
    assert_eq!(app.pipeline.state(), &PipelineState::Running);

    assert!(app.set_wind_noise_reduction_enabled(true));
    assert!(!app.set_wind_noise_reduction_enabled(true));
    let plan = app
        .apply_runtime_change_if_running(DeepFilterModelUiStatus::NotConfigured, None)
        .expect("a running pipeline restarts");
    assert_eq!(app.pipeline.state(), &PipelineState::Starting);
    app.complete_pipeline_start(plan, Ok(None));
    assert_eq!(app.pipeline.state(), &PipelineState::Running);
}

#[test]
fn app_applies_loaded_settings_to_fields_and_devices() {
    let mut app = app();
    app.devices = vec![
        AudioInputDevice::new("default-mic", "Default Mic", true),
        AudioInputDevice::new("saved-mic", "Saved Mic", false),
    ];
    app.output_devices = vec![
        AudioOutputDevice::new("default-out", "Default Output", true),
        AudioOutputDevice::new("saved-out", "Saved Output", false),
        AudioOutputDevice::new("cable-out", "CABLE Input", false),
    ];
    app.pending_settings = Some(PersistedSettings {
        input_device_id: Some("saved-mic".to_owned()),
        input_device_name: Some("Saved Mic".to_owned()),
        output_device_id: Some("saved-out".to_owned()),
        output_device_name: Some("Saved Output".to_owned()),
        suppressor_mode: MODE_HIGH_QUALITY.to_owned(),
        suppression_strength: STRENGTH_GENTLE.to_owned(),
        wind_noise_reduction_enabled: true,
        echo_cancellation_enabled: true,
        deepfilter_model_dir: r"E:\Dev\模型onnx".to_owned(),
        ..PersistedSettings::default()
    });

    app.apply_pending_settings_after_refresh();

    assert_eq!(app.selected_device_id.as_ref().unwrap().as_str(), "saved-mic");
    assert_eq!(app.selected_output_device_id.as_ref().unwrap().as_str(), "cable-out");
    assert_eq!(app.suppressor_mode.value(), SuppressorMode::HighQuality);
    assert_eq!(app.suppression_strength, SuppressionStrength::Gentle);
    assert!(app.wind_noise_reduction_enabled);
    assert!(app.echo_cancellation_enabled);
    assert!(app.pending_settings.is_none());
    assert_eq!(app.status_message, "已加载本地设置，部分设备不可用，已使用可用设备");
}

#[test]
fn app_migrates_legacy_settings_to_high_quality_and_aec() {
    let mut app = app();
    app.devices = vec![AudioInputDevice::new("mic-1", "Mic One", true)];
    app.output_devices = vec![AudioOutputDevice::new("out-1", "Out One", true)];
    app.pending_settings = Some(PersistedSettings {
        version: SETTINGS_VERSION - 1,
        input_device_id: Some("mic-1".to_owned()),
        input_device_name: Some("Mic One".to_owned()),
        output_device_id: Some("out-1".to_owned()),
        output_device_name: Some("Out One".to_owned()),
        output_target: OUTPUT_TARGET_VIRTUAL_MIC.to_owned(),
        suppressor_mode: MODE_LOW_LATENCY.to_owned(),
        suppression_strength: STRENGTH_BALANCED.to_owned(),
        wind_noise_reduction_enabled: false,
        echo_cancellation_enabled: false,
        noise_suppression_enabled: true,
        microphone_boost_enabled: true,
        start_on_login_enabled: false,
        deepfilter_model_dir: String::new(),
    });

    app.apply_pending_settings_after_refresh();

    assert_eq!(app.suppressor_mode.value(), SuppressorMode::HighQuality);
    assert!(app.echo_cancellation_enabled);
}

#[test]
fn app_auto_start_requires_input_and_vb_cable_output() {
    let mut app = ready_app();
    app.selected_output_device_id = None;
    assert!(app.start_pipeline_if_ready(DeepFilterModelUiStatus::Valid, None).is_none());
    assert_eq!(app.pipeline.state(), &PipelineState::Stopped);

    let mut app = ready_app();
    app.selected_device_id = None;
    assert!(app.start_pipeline_if_ready(DeepFilterModelUiStatus::Valid, None).is_none());
    assert_eq!(app.pipeline.state(), &PipelineState::Stopped);

    let mut app = ready_app();
    app.noise_suppression_enabled = false;
    assert!(app.start_pipeline_if_ready(DeepFilterModelUiStatus::Valid, None).is_some());
    assert_eq!(app.pipeline.state(), &PipelineState::Starting);
}

#[test]
fn app_start_source_uses_vb_cable_output_device() {
    let mut app = ready_app();
    app.noise_suppression_enabled = false;
    let plan = app.plan_pipeline_start(DeepFilterModelUiStatus::Valid, None).unwrap();

    assert_eq!(plan.config.input_device_id().as_str(), "mic-id");
    assert_eq!(plan.config.output_target(), &AudioOutputTarget::AudioDevice(DeviceId::new("cable-id")));
    assert_eq!(plan.output_label, "CABLE Input");
    assert_eq!(plan.mode_label, "无降噪");

    app.complete_pipeline_start(plan, Ok(None));
    assert_eq!(app.status_message, "正在使用无降噪输出到 CABLE Input");
}

#[test]
fn app_start_rejects_non_vb_cable_output_even_if_selected_id_exists() {
    let mut app = app();
    app.devices = vec![AudioInputDevice::new("mic-id", "Mic", true)];
    app.output_devices = vec![AudioOutputDevice::new("speaker-id", "Speakers", true)];
    app.selected_device_id = Some(DeviceId::new("mic-id"));
    app.selected_output_device_id = Some(DeviceId::new("speaker-id"));
    app.noise_suppression_enabled = false;

    assert!(app.plan_pipeline_start(DeepFilterModelUiStatus::Valid, None).is_none());

    assert!(matches!(app.pipeline.state(), PipelineState::Error(_)));
    assert!(app.status_message.contains("未找到 VB-CABLE 输出端点"));
}

#[test]
fn app_start_source_passes_echo_cancellation_to_pipeline() {
    let mut app = ready_app();
    app.noise_suppression_enabled = true;
    app.echo_cancellation_enabled = true;
    app.suppression_strength = SuppressionStrength::Gentle;
    let bundle = clearline::suppressor::DeepFilterNetModelBundle::from_asset_paths(
        "m".into(),
        "m/enc.onnx".into(),
        "m/erb_dec.onnx".into(),
        "m/df_dec.onnx".into(),
        "m/config.ini".into(),
    );
    let plan = app.plan_pipeline_start(DeepFilterModelUiStatus::Valid, Some(bundle)).unwrap();

    assert!(plan.config.echo_cancellation_enabled());
    assert_eq!(plan.config.suppression_strength(), SuppressionStrength::Gentle);
    assert!(plan.config.deepfilternet_model_bundle().is_some());
    assert_eq!(plan.mode_label, "高质量降噪（DeepFilterNet 模型）");
}

#[test]
fn high_quality_start_needs_the_packaged_model() {
    let mut app = ready_app();
    assert!(app
        .plan_pipeline_start(DeepFilterModelUiStatus::MissingAsset("enc.onnx".to_string()), None)
        .is_none());
    assert_eq!(app.status_message, "DeepFilterNet 模型不可用：缺少 enc.onnx");

    let mut app = ready_app();
    assert!(app.plan_pipeline_start(DeepFilterModelUiStatus::Valid, None).is_none());
    assert_eq!(app.status_message, "DeepFilterNet 模型不可用，无法启动高质量降噪");

    let mut app = ready_app();
    app.selected_device_id = None;
    assert!(app.plan_pipeline_start(DeepFilterModelUiStatus::Valid, None).is_none());
    assert_eq!(app.pipeline.state(), &PipelineState::Error("未选择输入设备".to_string()));
    assert_eq!(app.status_message, "启动前请先选择麦克风");
}

#[test]
fn failed_stream_start_is_reported() {
    let mut app = ready_app();
    app.noise_suppression_enabled = false;
    let plan = app.plan_pipeline_start(DeepFilterModelUiStatus::Valid, None).unwrap();
    let error = ClearLineError::StreamPlay("busy".to_string());
    app.complete_pipeline_start(plan, Err(error.clone()));

    assert_eq!(app.pipeline.state(), &PipelineState::Error(error.message()));
    assert_eq!(app.status_message, format!("启动失败：{}", error.message()));
}

#[test]
fn device_refresh_updates_selection_and_status() {
    let mut app = app();
    app.apply_device_refresh(
        Ok(vec![AudioInputDevice::new("a", "A", false), AudioInputDevice::new("b", "B", true)]),
        Some(vec![AudioOutputDevice::new("cable", "CABLE Input", false)]),
    );
    assert_eq!(app.selected_device_id.as_ref().unwrap().as_str(), "b");
    assert_eq!(app.selected_output_device_id.as_ref().unwrap().as_str(), "cable");
    assert_eq!(app.status_message, "已找到 2 个输入设备");

    app.apply_device_refresh(Ok(vec![]), None);
    assert_eq!(app.selected_device_id, None);
    assert_eq!(app.status_message, "未找到输入设备。请检查 Windows 麦克风权限和录音设备。");

    app.apply_device_refresh(Err("no host".to_string()), None);
    assert_eq!(app.pipeline.state(), &PipelineState::Error("no host".to_string()));
    assert_eq!(app.status_message, "输入设备枚举失败：no host");
}

#[test]
fn settings_load_sets_the_initial_status() {
    let app = ClearLineAppState::from_settings_load(SettingsLoad::Loaded(Some(PersistedSettings::default())));
    assert!(app.settings_loaded);
    assert_eq!(app.status_message, "已加载本地设置");

    let app = ClearLineAppState::from_settings_load(SettingsLoad::Loaded(None));
    assert!(!app.settings_loaded);
    assert_eq!(app.status_message, "正在初始化设备列表");

    let app = ClearLineAppState::from_settings_load(SettingsLoad::LoadFailed("bad json".to_string()));
    assert_eq!(app.status_message, "设置文件无效，已使用默认设置：bad json");

    let app = ClearLineAppState::from_settings_load(SettingsLoad::StoreUnavailable("no dir".to_string()));
    assert_eq!(app.status_message, "设置目录不可用，已使用默认设置：no dir");
}

#[test]
fn saved_settings_restore_the_same_choices() {
    let mut app = ready_app();
    app.suppression_strength = SuppressionStrength::Strong;
    app.wind_noise_reduction_enabled = true;
    app.echo_cancellation_enabled = false;
    let saved = app.persisted_settings_snapshot();
    assert_eq!(saved.version, SETTINGS_VERSION);

    let mut restored = ClearLineAppState::new_without_loading_settings();
    restored.devices = app.devices.clone();
    restored.output_devices = app.output_devices.clone();
    restored.pending_settings = Some(saved);
    restored.apply_pending_settings_after_refresh();

    assert_eq!(restored.selected_device_id, app.selected_device_id);
    assert_eq!(restored.selected_output_device_id, app.selected_output_device_id);
    assert_eq!(restored.suppression_strength, SuppressionStrength::Strong);
    assert!(restored.wind_noise_reduction_enabled);
    assert!(!restored.echo_cancellation_enabled);
}

#[test]
fn tray_events_toggle_settings_and_exit() {
    let mut app = app();
    assert_eq!(app.handle_tray_event(TrayEvent::ToggleNoiseSuppression), TrayReaction::SettingsChanged);
    assert!(!app.noise_suppression_enabled);
    assert_eq!(app.handle_tray_event(TrayEvent::ShowWindow), TrayReaction::ShowWindow);
    assert!(app.close_to_tray(true, true));
    assert_eq!(app.status_message, "已最小化到系统托盘，双击托盘图标可恢复窗口");
    assert_eq!(app.handle_tray_event(TrayEvent::Exit), TrayReaction::Exit);
    assert!(app.exit_requested);
    assert!(!app.close_to_tray(true, true));
}

#[test]
fn settings_save_outcome_is_reported() {
    let mut app = app();
    app.record_settings_save(Ok(()));
    assert_eq!(app.status_message, "设置已保存");
    app.record_settings_save(Err("disk full".to_string()));
    assert_eq!(app.status_message, "设置保存失败：disk full");
}

#[test]
fn minimized_flags_start_hidden() {
    assert!(start_minimized_from_args(&["--minimized"]));
    assert!(start_minimized_from_args(&["x", "/minimized"]));
    assert!(start_minimized_from_args(&["--hidden"]));
    assert!(!start_minimized_from_args(&["--minimize"]));
}
