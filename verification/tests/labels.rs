use clearline::app_state::{
    all_app_tabs, default_app_tab, default_suppressor_mode, resolve_input_device_from_settings,
    resolve_output_device_from_settings, AppTab,
};
use clearline::device::{AudioInputDevice, AudioOutputDevice, DeviceId};
use clearline::echo::{EchoCancellerBackend, EchoCancellerRuntimeInfo};
use clearline::labels::{
    algorithm_latency_label, buffer_diagnostic_label, buffer_health_label, buffer_latency_label,
    build_info_label, deepfilter_model_status, deepfilter_model_status_label,
    deepfilter_startup_warning, default_recording_device_message, default_recording_device_title,
    echo_cancellation_config_label, echo_cancellation_runtime_label, echo_cancellation_title,
    frame_size_label, inference_drop_label, inference_health_label, inference_latency_label,
    inference_queue_label, mode_card_subtitle, mode_label, noise_suppression_config_label,
    noise_suppression_status_label, open_sound_settings_button_label, output_device_label,
    pipeline_state_label, runtime_format_label, sound_settings_open_failed_status,
    sound_settings_opened_status, strength_button_label, suppression_strength_label, tab_label,
    wind_reduction_config_label, wind_reduction_runtime_label, BuildInfo, DeepFilterModelUiStatus,
};
use clearline::pipeline::{AudioOutputTarget, PipelineMetrics, PipelineRuntimeInfo, PipelineState};
use clearline::suppressor::{
    AudioFrameFormat, SuppressionStrength, SuppressorMode, SuppressorRuntimeInfo,
    SuppressorWorkerDiagnostics,
};

#[test]
fn localized_mode_labels_are_chinese() {
    assert_eq!(mode_label(SuppressorMode::Bypass), "无降噪");
    assert_eq!(mode_label(SuppressorMode::LowLatency), "低延迟降噪");
    assert_eq!(mode_label(SuppressorMode::HighQuality), "高质量降噪");
}

#[test]
fn default_suppressor_mode_is_high_quality() {
    assert_eq!(default_suppressor_mode(), SuppressorMode::HighQuality);
}

#[test]
fn restore_input_device_prefers_id_then_name_then_default() {
    let devices = vec![
        AudioInputDevice::new("default-id", "Default Mic", true),
        AudioInputDevice::new("saved-id", "Saved Mic", false),
        AudioInputDevice::new("name-id", "Name Mic", false),
    ];

    assert_eq!(
        resolve_input_device_from_settings(Some("saved-id"), Some("Name Mic"), &devices)
            .unwrap()
            .as_str(),
        "saved-id"
    );
    assert_eq!(
        resolve_input_device_from_settings(Some("missing-id"), Some("Name Mic"), &devices)
            .unwrap()
            .as_str(),
        "name-id"
    );
    assert_eq!(
        resolve_input_device_from_settings(Some("missing-id"), Some("Missing Mic"), &devices)
            .unwrap()
            .as_str(),
        "default-id"
    );
}

#[test]
fn restore_output_device_ignores_non_cable_saved_device_when_vb_cable_exists() {
    let devices = vec![
        AudioOutputDevice::new("default-out", "Default Speaker", true),
        AudioOutputDevice::new("saved-out", "Saved Output", false),
        AudioOutputDevice::new("cable-out", "CABLE Input", false),
    ];

    assert_eq!(
        resolve_output_device_from_settings(Some("saved-out"), Some("Saved Output"), &devices)
            .unwrap()
            .as_str(),
        "cable-out"
    );
}

#[test]
fn restore_output_device_returns_none_when_vb_cable_is_missing() {
    let devices = vec![
        AudioOutputDevice::new("default-out", "Default Speaker", true),
        AudioOutputDevice::new("saved-out", "Saved Output", false),
    ];

    assert_eq!(
        resolve_output_device_from_settings(Some("saved-out"), Some("Saved Output"), &devices),
        None
    );
}

#[test]
fn restore_output_device_prefers_cable_input_when_no_saved_device() {
    let devices = vec![
        AudioOutputDevice::new("default-out", "Default Speakers", true),
        AudioOutputDevice::new("cable-out", "CABLE Input", false),
    ];

    assert_eq!(
        resolve_output_device_from_settings(None, None, &devices)
            .unwrap()
            .as_str(),
        "cable-out"
    );

    let devices = vec![
        AudioOutputDevice::new("default-out", "Default Speakers", true),
        AudioOutputDevice::new("cable-out", "CABLE In 16 Ch (VB-Audio Virtual Cable)", false),
    ];

    assert_eq!(
        resolve_output_device_from_settings(None, None, &devices)
            .unwrap()
            .as_str(),
        "cable-out"
    );
}

#[test]
fn output_device_label_marks_default_device_in_chinese() {
    let device = AudioOutputDevice::new("out-1", "VB-CABLE Input", true);

    assert_eq!(output_device_label(&device), "VB-CABLE Input（默认）");
}

#[test]
fn default_recording_device_prompt_only_opens_sound_settings() {
    assert_eq!(default_recording_device_title(), "Windows 默认录音设备");
    assert!(default_recording_device_message().contains("默认录音设备"));
    assert!(default_recording_device_message().contains("CABLE Output"));
    assert_eq!(open_sound_settings_button_label(), "打开声音设置");
}

#[test]
fn sound_settings_status_messages_are_chinese() {
    assert_eq!(sound_settings_opened_status(), "已打开 Windows 声音设置");
    assert_eq!(
        sound_settings_open_failed_status("仅 Windows 可用"),
        "打开 Windows 声音设置失败：仅 Windows 可用"
    );
}

#[test]
fn localized_pipeline_state_labels_are_chinese() {
    assert_eq!(pipeline_state_label(&PipelineState::Stopped), "已停止");
    assert_eq!(pipeline_state_label(&PipelineState::Starting), "启动中");
    assert_eq!(pipeline_state_label(&PipelineState::Running), "运行中");
    assert_eq!(
        pipeline_state_label(&PipelineState::Error("没有输入设备".to_owned())),
        "错误：没有输入设备"
    );
}

#[test]
fn app_tab_labels_are_chinese() {
    assert_eq!(tab_label(AppTab::Device), "设备");
    assert_eq!(tab_label(AppTab::Status), "状态");
}

#[test]
fn visible_tabs_are_device_and_status_only() {
    assert_eq!(all_app_tabs().as_slice(), &[AppTab::Device, AppTab::Status]);
}

#[test]
fn default_tab_is_device_page() {
    assert_eq!(default_app_tab(), AppTab::Device);
}

#[test]
fn mode_card_title_is_compact() {
    assert_eq!(mode_card_subtitle(), "");
}

#[test]
fn buffer_health_labels_are_chinese() {
    assert_eq!(buffer_health_label(0, 0), "稳定");
    assert_eq!(buffer_health_label(1, 0), "曾发生欠载");
    assert_eq!(buffer_health_label(0, 1), "曾发生溢出");
}

fn low_latency_info() -> PipelineRuntimeInfo {
    PipelineRuntimeInfo::new(
        AudioFrameFormat::new(48_000, 1),
        AudioFrameFormat::new(48_000, 2),
        SuppressorRuntimeInfo::new(SuppressorMode::LowLatency, "nnnoiseless-rnnoise", 480, true),
        AudioOutputTarget::AudioDevice(DeviceId::new("out-1")),
    )
}

#[test]
fn latency_diagnostic_labels_are_chinese() {
    let runtime_info = low_latency_info();
    let metrics = PipelineMetrics::new(960, 96_000, 0, 0);

    assert_eq!(buffer_latency_label(metrics, Some(&runtime_info)), "约 10ms / 上限 1000ms");
    assert_eq!(algorithm_latency_label(Some(&runtime_info)), "约 10ms（低延迟降噪）");
    assert_eq!(buffer_diagnostic_label(metrics, Some(&runtime_info)), "稳定：延迟和缓冲正常");
    assert_eq!(buffer_latency_label(PipelineMetrics::default(), None), "未运行");
}

#[test]
fn processing_status_labels_are_chinese() {
    let info = PipelineRuntimeInfo::new(
        AudioFrameFormat::new(48_000, 1),
        AudioFrameFormat::new(48_000, 2),
        SuppressorRuntimeInfo::new(SuppressorMode::LowLatency, "nnnoiseless-rnnoise", 480, true)
            .with_strength(SuppressionStrength::Balanced),
        AudioOutputTarget::AudioDevice(DeviceId::new("out-1")),
    );

    assert_eq!(noise_suppression_status_label(Some(&info)), "低延迟降噪（RNNoise）已启用");
    assert_eq!(suppression_strength_label(Some(&info)), "标准");
    assert_eq!(runtime_format_label(info.input_format()), "48000 Hz / 1 声道");
    assert_eq!(frame_size_label(Some(&info)), "480 samples");
    assert_eq!(noise_suppression_status_label(None), "未连接音频流");
}

#[test]
fn echo_cancellation_labels_are_chinese() {
    let input_format = AudioFrameFormat::new(48_000, 1);
    let disabled = low_latency_info();
    let enabled = disabled.clone().with_echo_cancellation(EchoCancellerRuntimeInfo::new(
        EchoCancellerBackend::Aec3,
        input_format,
    ));

    assert_eq!(echo_cancellation_title(), "回音消除");
    assert_eq!(echo_cancellation_config_label(true), "回音消除：开启");
    assert_eq!(echo_cancellation_config_label(false), "回音消除：关闭");
    assert_eq!(echo_cancellation_runtime_label(None), "未连接音频流");
    assert_eq!(echo_cancellation_runtime_label(Some(&disabled)), "未启用");
    assert_eq!(echo_cancellation_runtime_label(Some(&enabled)), "已启用（AEC3）");
}

#[test]
fn fallback_status_labels_do_not_show_passthrough_word() {
    for mode in [SuppressorMode::Bypass, SuppressorMode::LowLatency, SuppressorMode::HighQuality] {
        let info = PipelineRuntimeInfo::new(
            AudioFrameFormat::new(44_100, 1),
            AudioFrameFormat::new(44_100, 2),
            SuppressorRuntimeInfo::new(mode, "bypass-placeholder", 0, false),
            AudioOutputTarget::AudioDevice(DeviceId::new("out-1")),
        );
        let label = noise_suppression_status_label(Some(&info));

        assert!(!label.contains("直通"), "fallback label should not expose passthrough wording: {label}");
    }
}

#[test]
fn rnnoise_format_fallback_status_is_explicit() {
    let info = PipelineRuntimeInfo::new(
        AudioFrameFormat::new(44_100, 1),
        AudioFrameFormat::new(44_100, 2),
        SuppressorRuntimeInfo::new(SuppressorMode::LowLatency, "bypass-placeholder", 441, false),
        AudioOutputTarget::AudioDevice(DeviceId::new("out-1")),
    );

    assert_eq!(noise_suppression_status_label(Some(&info)), "RNNoise 不支持当前格式，已使用安全回退");
}

#[test]
fn high_quality_processing_status_label_is_not_placeholder() {
    let info = PipelineRuntimeInfo::new(
        AudioFrameFormat::new(48_000, 1),
        AudioFrameFormat::new(48_000, 2),
        SuppressorRuntimeInfo::new(SuppressorMode::HighQuality, "adaptive-quality-v1", 960, true)
            .with_strength(SuppressionStrength::Strong),
        AudioOutputTarget::AudioDevice(DeviceId::new("out-1")),
    );

    assert_eq!(noise_suppression_status_label(Some(&info)), "实验降噪后端已启用");
    assert_eq!(suppression_strength_label(Some(&info)), "强力");
    assert_eq!(strength_button_label(SuppressionStrength::Gentle), "柔和");
    assert_eq!(strength_button_label(SuppressionStrength::Balanced), "标准");
    assert_eq!(strength_button_label(SuppressionStrength::Strong), "强力");
}

#[test]
fn wind_reduction_status_labels_are_chinese() {
    assert_eq!(wind_reduction_config_label(true), "抗风噪增强：开启");
    assert_eq!(wind_reduction_config_label(false), "抗风噪增强：关闭");
    assert_eq!(wind_reduction_runtime_label(None), "未连接音频流");
}

#[test]
fn top_header_control_labels_are_chinese() {
    assert_eq!(noise_suppression_config_label(true), "降噪：开启");
    assert_eq!(noise_suppression_config_label(false), "降噪：关闭");
}

#[test]
fn deepfilter_startup_warning_reports_packaged_model_unavailable() {
    assert_eq!(
        deepfilter_startup_warning(
            SuppressorMode::LowLatency,
            &DeepFilterModelUiStatus::MissingAsset("enc.onnx".to_owned())
        ),
        None
    );
    assert_eq!(deepfilter_startup_warning(SuppressorMode::HighQuality, &DeepFilterModelUiStatus::Valid), None);
    assert_eq!(
        deepfilter_startup_warning(SuppressorMode::HighQuality, &DeepFilterModelUiStatus::NotConfigured),
        Some("DeepFilterNet 模型不可用：未找到随程序打包的模型".to_owned())
    );

    let warning = deepfilter_startup_warning(
        SuppressorMode::HighQuality,
        &DeepFilterModelUiStatus::MissingAsset("enc.onnx".to_owned()),
    )
    .expect("incomplete packaged model should produce a warning");

    assert!(warning.contains("DeepFilterNet"));
    assert!(warning.contains("不可用"));
    assert!(warning.contains("缺少 enc.onnx"));
    assert!(!warning.contains("RNNoise"));
    assert!(!warning.contains("回退"));
    assert!(!warning.contains("内置高质量"));
}

#[test]
fn deepfilter_startup_warning_reports_model_unavailable_without_rnnoise_fallback() {
    let warning = deepfilter_startup_warning(
        SuppressorMode::HighQuality,
        &DeepFilterModelUiStatus::MissingAsset("enc.onnx".to_owned()),
    )
    .expect("incomplete packaged model should produce a warning");

    assert!(warning.contains("DeepFilterNet"));
    assert!(warning.contains("不可用"));
    assert!(!warning.contains("RNNoise"));
    assert!(!warning.contains("回退"));
}

#[test]
fn build_info_label_contains_version_profile_and_commit() {
    let info = BuildInfo::new("0.1.0", "release", "d527159");

    assert_eq!(build_info_label(info), "v0.1.0 · release · d527159");
}

#[test]
fn build_info_uses_unknown_commit_when_git_metadata_is_missing() {
    let info = BuildInfo::new("0.1.0", "debug", "");

    assert_eq!(build_info_label(info), "v0.1.0 · debug · unknown");
}

#[test]
fn deepfilter_model_status_is_not_configured_for_empty_path() {
    assert_eq!(deepfilter_model_status(true, [false; 4]), DeepFilterModelUiStatus::NotConfigured);
    assert_eq!(
        deepfilter_model_status_label(&DeepFilterModelUiStatus::NotConfigured),
        "未找到模型目录"
    );
}

#[test]
fn deepfilter_model_status_reports_first_missing_asset() {
    assert_eq!(deepfilter_model_status(false, [true; 4]), DeepFilterModelUiStatus::Valid);
    assert_eq!(
        deepfilter_model_status_label(&deepfilter_model_status(false, [true, true, false, false])),
        "打包模型不完整：缺少 df_dec.onnx"
    );
}

#[test]
fn deepfilternet_status_reports_real_backend() {
    let info = PipelineRuntimeInfo::new(
        AudioFrameFormat::new(48_000, 1),
        AudioFrameFormat::new(48_000, 2),
        SuppressorRuntimeInfo::new(SuppressorMode::HighQuality, "deepfilternet-tract", 480, true)
            .with_strength(SuppressionStrength::Balanced),
        AudioOutputTarget::AudioDevice(DeviceId::new("out-1")),
    );

    assert_eq!(noise_suppression_status_label(Some(&info)), "高质量降噪（DeepFilterNet 模型）已启用");
}

#[test]
fn deepfilternet_worker_status_reports_real_backend() {
    let info = PipelineRuntimeInfo::new(
        AudioFrameFormat::new(48_000, 1),
        AudioFrameFormat::new(48_000, 2),
        SuppressorRuntimeInfo::new(SuppressorMode::HighQuality, "deepfilternet-tract-worker", 480, true)
            .with_strength(SuppressionStrength::Balanced)
            .with_worker_diagnostics(
                SuppressorWorkerDiagnostics::new(3, 1, 3, 0)
                    .with_last_inference_time_ms(7)
                    .with_max_inference_time_ms(11),
            ),
        AudioOutputTarget::AudioDevice(DeviceId::new("out-1")),
    );

    assert_eq!(noise_suppression_status_label(Some(&info)), "高质量降噪（DeepFilterNet 模型）已启用");
    assert_eq!(inference_health_label(Some(&info)), "稳定");
    assert_eq!(inference_latency_label(Some(&info)), "最近 7ms / 最大 11ms");
    assert_eq!(inference_queue_label(Some(&info)), "输入 1/3 · 输出 0/3");
    assert_eq!(inference_drop_label(Some(&info)), "输入丢弃 0 · 输出丢弃 0 · 迟到 0");
}

#[test]
fn deepfilternet_worker_status_reports_slow_or_degraded_state() {
    let slow_info = PipelineRuntimeInfo::new(
        AudioFrameFormat::new(48_000, 1),
        AudioFrameFormat::new(48_000, 2),
        SuppressorRuntimeInfo::new(SuppressorMode::HighQuality, "deepfilternet-tract-worker", 480, true)
            .with_worker_diagnostics(
                SuppressorWorkerDiagnostics::new(3, 3, 3, 2)
                    .with_late_output_frames(4)
                    .with_last_inference_time_ms(35)
                    .with_max_inference_time_ms(42),
            ),
        AudioOutputTarget::AudioDevice(DeviceId::new("out-1")),
    );
    assert_eq!(inference_health_label(Some(&slow_info)), "推理偏慢");

    let degraded_info = PipelineRuntimeInfo::new(
        AudioFrameFormat::new(48_000, 1),
        AudioFrameFormat::new(48_000, 2),
        SuppressorRuntimeInfo::new(SuppressorMode::HighQuality, "deepfilternet-tract-worker", 480, true)
            .with_worker_diagnostics(
                SuppressorWorkerDiagnostics::new(3, 0, 3, 0)
                    .with_inference_errors(1)
                    .with_degraded(true),
            ),
        AudioOutputTarget::AudioDevice(DeviceId::new("out-1")),
    );
    assert_eq!(inference_health_label(Some(&degraded_info)), "已降级");
}
