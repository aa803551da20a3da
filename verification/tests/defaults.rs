use clearline::device::DeviceId;
use clearline::echo::{EchoCancellerBackend, EchoCancellerRuntimeInfo};
use clearline::labels::echo_cancellation_is_active;
use clearline::pipeline::{AudioOutputTarget, PipelineRuntimeInfo};
use clearline::settings::{
    default_echo_cancellation_enabled, default_microphone_boost_enabled, default_noise_suppression_enabled,
};
use clearline::suppressor::{
    all_suppressor_modes, plan_strict_suppressor, rnnoise_supports, AudioFrameFormat, SuppressorMode,
    SuppressorPlan, SuppressorRuntimeInfo,
};
use clearline::update::is_newer_version;
use clearline::worker_metrics::DeepFilterNetWorkerMetrics;
use clearline::ClearLineError;

fn runtime_info(backend: EchoCancellerBackend) -> PipelineRuntimeInfo {
    let format = AudioFrameFormat::new(48_000, 1);
    let mut info = PipelineRuntimeInfo::new(
        format,
        format,
        SuppressorRuntimeInfo::new(SuppressorMode::LowLatency, "nnnoiseless-rnnoise", 480, true),
        AudioOutputTarget::AudioDevice(DeviceId::new("out-1")),
    );
    info.echo_cancellation = EchoCancellerRuntimeInfo::new(backend, format);
    info
}

#[test]
fn missing_settings_fields_default_to_enabled() {
    assert!(default_echo_cancellation_enabled());
    assert!(default_noise_suppression_enabled());
    assert!(default_microphone_boost_enabled());
}

#[test]
fn echo_cancellation_activity_follows_the_backend() {
    assert_eq!(echo_cancellation_is_active(None), None);
    let off = runtime_info(EchoCancellerBackend::Disabled);
    assert_eq!(echo_cancellation_is_active(Some(&off)), Some(false));
    let on = runtime_info(EchoCancellerBackend::Aec3);
    assert_eq!(echo_cancellation_is_active(Some(&on)), Some(true));
}

#[test]
fn output_target_names_the_virtual_microphone() {
    assert!(AudioOutputTarget::ClearLineVirtualMicrophone.is_clearline_virtual_microphone());
    assert!(!AudioOutputTarget::AudioDevice(DeviceId::new("out-1")).is_clearline_virtual_microphone());
}

#[test]
fn suppressor_modes_are_listed_in_order() {
    assert_eq!(
        all_suppressor_modes(),
        [SuppressorMode::Bypass, SuppressorMode::LowLatency, SuppressorMode::HighQuality]
    );
}

#[test]
fn rnnoise_takes_ten_ms_frames_at_48_khz() {
    assert!(rnnoise_supports(AudioFrameFormat::new(48_000, 1), 480));
    assert!(rnnoise_supports(AudioFrameFormat::new(48_000, 2), 960));
    assert!(rnnoise_supports(AudioFrameFormat::new(48_000, 0), 480));
    assert!(!rnnoise_supports(AudioFrameFormat::new(44_100, 1), 480));
    assert!(!rnnoise_supports(AudioFrameFormat::new(48_000, 2), 480));
}

#[test]
fn strict_suppressor_plan_refuses_a_missing_model() {
    assert_eq!(plan_strict_suppressor(SuppressorMode::Bypass, false, false), Ok(SuppressorPlan::Bypass));
    assert_eq!(plan_strict_suppressor(SuppressorMode::LowLatency, false, false), Ok(SuppressorPlan::LowLatency));
    assert_eq!(
        plan_strict_suppressor(SuppressorMode::HighQuality, true, false),
        Err(ClearLineError::ModelLoad("ClearLine was built without DeepFilterNet support".to_owned()))
    );
    assert_eq!(
        plan_strict_suppressor(SuppressorMode::HighQuality, false, true),
        Err(ClearLineError::ModelLoad("DeepFilterNet model bundle is required for high quality mode".to_owned()))
    );
    assert_eq!(plan_strict_suppressor(SuppressorMode::HighQuality, true, true), Ok(SuppressorPlan::DeepFilterNet));
}

#[test]
fn dequeued_output_frames_never_go_below_zero() {
    let mut metrics = DeepFilterNetWorkerMetrics::new(2, 2);
    metrics.record_output_dequeued();
    assert_eq!(metrics.pending_output_frames, 0);
    metrics.record_output_enqueued();
    metrics.record_output_enqueued();
    metrics.record_output_dequeued();
    assert_eq!(metrics.pending_output_frames, 1);
}

#[test]
fn the_slowest_inference_is_never_below_the_last() {
    let mut metrics = DeepFilterNetWorkerMetrics::new(1, 1);
    for ms in [7u32, 3, 9, 1] {
        metrics.record_inference_time_ms(ms);
        assert!(metrics.max_inference_time_ms >= metrics.last_inference_time_ms);
    }
    assert_eq!(metrics.max_inference_time_ms, 9);
    assert_eq!(metrics.last_inference_time_ms, 1);
}

#[test]
fn a_version_is_never_newer_than_itself() {
    assert_eq!(is_newer_version("1.2.3", "1.2.3"), Ok(false));
    assert_eq!(is_newer_version("v0.1.0", "0.1.0"), Ok(false));
    assert_eq!(is_newer_version("1.2.4", "1.2.3"), Ok(true));
    assert_eq!(is_newer_version("1.2.3", "1.2.4"), Ok(false));
}
