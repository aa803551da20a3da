use clearline::device::DeviceId;
use clearline::echo::{EchoCancellerBackend, EchoCancellerRuntimeInfo};
use clearline::pipeline::{
    buffer_capacity_samples, check_virtual_microphone_input_rate,
    clearline_virtual_microphone_output_format, passthrough_output_format,
    plan_passthrough_streams, samples_to_latency_ms, startup_prebuffer_samples, AudioOutputTarget,
    AudioPipeline, AudioPipelineConfig, AudioStreamFormat, PipelineMetrics, PipelineRuntimeInfo,
    PipelineState,
};
use clearline::suppressor::{
    AudioFrameFormat, SuppressionStrength, SuppressorMode, SuppressorRuntimeInfo,
};
use clearline::ClearLineError;

#[test]
fn pipeline_starts_and_stops_with_selected_config() {
    let mut pipeline = AudioPipeline::new();
    assert_eq!(pipeline.state(), &PipelineState::Stopped);

    let config = AudioPipelineConfig::new(
        DeviceId::new("mic-1"),
        DeviceId::new("out-1"),
        SuppressorMode::Bypass,
    );
    pipeline.start(config.clone()).unwrap();

    assert_eq!(pipeline.state(), &PipelineState::Running);
    assert_eq!(pipeline.config(), Some(&config));
    assert_eq!(
        pipeline
            .config()
            .unwrap()
            .output_device_id()
            .map(DeviceId::as_str),
        Some("out-1")
    );

    pipeline.stop();

    assert_eq!(pipeline.state(), &PipelineState::Stopped);
    assert_eq!(pipeline.config(), None);
}

#[test]
fn pipeline_can_store_error_state() {
    let mut pipeline = AudioPipeline::new();

    pipeline.fail("input device unavailable".to_string());

    assert_eq!(
        pipeline.state(),
        &PipelineState::Error("input device unavailable".to_owned())
    );
}

#[test]
fn pipeline_exposes_no_runtime_info_before_stream_starts() {
    let pipeline = AudioPipeline::new();

    assert_eq!(pipeline.runtime_info(), None);
}

#[test]
fn metrics_estimate_buffer_latency_from_audio_format() {
    let metrics = PipelineMetrics::new(960, 96_000, 0, 0);
    let format = AudioFrameFormat::new(48_000, 2);

    assert_eq!(metrics.buffered_latency_ms(format), Some(10));
    assert_eq!(metrics.capacity_latency_ms(format), Some(1_000));
    assert_eq!(PipelineMetrics::default().buffered_latency_ms(format), None);
}

#[test]
fn runtime_info_exposes_stream_formats_and_suppressor_details() {
    let suppressor =
        SuppressorRuntimeInfo::new(SuppressorMode::LowLatency, "nnnoiseless-rnnoise", 480, true);
    let info = PipelineRuntimeInfo::new(
        AudioFrameFormat::new(48_000, 1),
        AudioFrameFormat::new(48_000, 2),
        suppressor,
        AudioOutputTarget::AudioDevice(DeviceId::new("out-1")),
    );

    assert_eq!(info.input_format(), AudioFrameFormat::new(48_000, 1));
    assert_eq!(info.output_format(), AudioFrameFormat::new(48_000, 2));
    assert_eq!(info.suppressor().backend_name(), "nnnoiseless-rnnoise");
    assert!(info.suppressor().is_real_noise_suppression());
}

#[test]
fn wind_noise_reduction_is_disabled_by_default_and_can_be_enabled() {
    let config = AudioPipelineConfig::new(
        DeviceId::new("mic-1"),
        DeviceId::new("out-1"),
        SuppressorMode::LowLatency,
    );

    assert!(!config.wind_noise_reduction_enabled());

    let config = config.with_wind_noise_reduction(true);

    assert!(config.wind_noise_reduction_enabled());
}

#[test]
fn pipeline_config_disables_echo_cancellation_by_default() {
    let config =
        AudioPipelineConfig::for_virtual_microphone(DeviceId::new("mic-1"), SuppressorMode::LowLatency);

    assert!(!config.echo_cancellation_enabled());
}

#[test]
fn pipeline_config_can_enable_echo_cancellation() {
    let config =
        AudioPipelineConfig::for_virtual_microphone(DeviceId::new("mic-1"), SuppressorMode::LowLatency)
            .with_echo_cancellation(true);

    assert!(config.echo_cancellation_enabled());
}

#[test]
fn pipeline_config_tracks_suppression_strength() {
    let config = AudioPipelineConfig::new(
        DeviceId::new("mic-1"),
        DeviceId::new("out-1"),
        SuppressorMode::HighQuality,
    );

    assert_eq!(config.suppression_strength(), SuppressionStrength::Balanced);

    let config = config.with_suppression_strength(SuppressionStrength::Strong);

    assert_eq!(config.suppression_strength(), SuppressionStrength::Strong);
}

#[test]
fn pipeline_config_defaults_to_audio_device_output_target() {
    let config = AudioPipelineConfig::new(
        DeviceId::new("mic-1"),
        DeviceId::new("out-1"),
        SuppressorMode::LowLatency,
    );

    assert_eq!(
        config.output_target(),
        &AudioOutputTarget::AudioDevice(DeviceId::new("out-1"))
    );
    assert_eq!(config.output_device_id().map(DeviceId::as_str), Some("out-1"));
}

#[test]
fn pipeline_config_can_target_clearline_virtual_microphone() {
    let config =
        AudioPipelineConfig::for_virtual_microphone(DeviceId::new("mic-1"), SuppressorMode::HighQuality);

    assert_eq!(config.input_device_id().as_str(), "mic-1");
    assert_eq!(config.output_target(), &AudioOutputTarget::ClearLineVirtualMicrophone);
    assert_eq!(config.output_device_id(), None);
}

#[test]
fn runtime_info_exposes_output_target() {
    let info = PipelineRuntimeInfo::new(
        AudioFrameFormat::new(48_000, 1),
        AudioFrameFormat::new(48_000, 1),
        SuppressorRuntimeInfo::new(SuppressorMode::LowLatency, "nnnoiseless-rnnoise", 480, true),
        AudioOutputTarget::ClearLineVirtualMicrophone,
    );

    assert_eq!(info.output_target(), &AudioOutputTarget::ClearLineVirtualMicrophone);
}

#[test]
fn runtime_info_exposes_echo_cancellation_details() {
    let input_format = AudioFrameFormat::new(48_000, 1);
    let info = PipelineRuntimeInfo::new(
        input_format,
        AudioFrameFormat::new(48_000, 1),
        SuppressorRuntimeInfo::new(SuppressorMode::LowLatency, "nnnoiseless-rnnoise", 480, true),
        AudioOutputTarget::ClearLineVirtualMicrophone,
    );

    assert_eq!(info.echo_cancellation().backend(), EchoCancellerBackend::Disabled);

    let info = info.with_echo_cancellation(EchoCancellerRuntimeInfo::new(
        EchoCancellerBackend::Aec3,
        input_format,
    ));

    assert_eq!(info.echo_cancellation().backend(), EchoCancellerBackend::Aec3);
    assert_eq!(info.echo_cancellation().format(), input_format);
}

#[test]
fn passthrough_output_format_uses_input_sample_rate() {
    let input = AudioStreamFormat::new(44_100, 1);
    let output_default = AudioStreamFormat::new(48_000, 2);

    let output = passthrough_output_format(input, output_default);

    assert_eq!(output, AudioStreamFormat::new(44_100, 2));
}

#[test]
fn virtual_microphone_output_format_requires_driver_contract() {
    assert_eq!(
        clearline_virtual_microphone_output_format(48_000, 1).unwrap(),
        AudioStreamFormat::new(48_000, 1)
    );

    assert!(clearline_virtual_microphone_output_format(44_100, 1).is_err());
    assert!(clearline_virtual_microphone_output_format(48_000, 2).is_err());
}

#[test]
fn virtual_microphone_format_error_names_the_reported_format() {
    match clearline_virtual_microphone_output_format(44_100, 2) {
        Err(ClearLineError::StreamBuild(message)) => assert_eq!(
            message,
            "ClearLine Virtual Microphone expects 48000 Hz / 1 channel, driver reported 44100 Hz / 2 channel(s)"
        ),
        other => panic!("unexpected result: {other:?}"),
    }
}

#[test]
fn pipeline_refuses_to_start_twice() {
    let mut pipeline = AudioPipeline::new();
    let config = AudioPipelineConfig::new(
        DeviceId::new("mic-1"),
        DeviceId::new("out-1"),
        SuppressorMode::Bypass,
    );
    pipeline.start(config.clone()).unwrap();

    assert_eq!(pipeline.start(config.clone()), Err(ClearLineError::PipelineAlreadyRunning));
    assert_eq!(pipeline.state(), &PipelineState::Running);
    assert_eq!(pipeline.config(), Some(&config));
}

#[test]
fn failed_stream_start_records_the_error() {
    let mut pipeline = AudioPipeline::new();
    let config = AudioPipelineConfig::new(
        DeviceId::new("mic-1"),
        DeviceId::new("out-1"),
        SuppressorMode::Bypass,
    );
    pipeline.begin_start().unwrap();
    assert_eq!(pipeline.state(), &PipelineState::Starting);

    let error = ClearLineError::StreamPlay("device busy".to_string());
    assert_eq!(pipeline.finish_start(config, Err(error.clone())), Err(error.clone()));
    assert_eq!(pipeline.state(), &PipelineState::Error(error.message()));
    assert_eq!(pipeline.config(), None);
}

#[test]
fn latency_rounds_half_up_and_is_at_least_one_millisecond() {
    let stereo = AudioFrameFormat::new(48_000, 2);
    assert_eq!(samples_to_latency_ms(0, stereo), None);
    assert_eq!(samples_to_latency_ms(1, stereo), Some(1));
    assert_eq!(samples_to_latency_ms(144, stereo), Some(2));
    assert_eq!(samples_to_latency_ms(143, stereo), Some(1));
}

#[test]
fn passthrough_plan_sizes_the_buffer_from_both_streams() {
    let input = AudioStreamFormat::new(48_000, 1);
    let output_default = AudioStreamFormat::new(44_100, 2);

    let plan = plan_passthrough_streams(input, output_default);

    assert_eq!(plan.output_format, AudioStreamFormat::new(48_000, 2));
    assert_eq!(plan.buffer_capacity_samples, 192_000);
    assert_eq!(plan.prebuffer_samples, 1_920);
    assert_eq!(
        buffer_capacity_samples(AudioStreamFormat::new(8_000, 1), AudioStreamFormat::new(16_000, 1)),
        32_000
    );
    assert_eq!(startup_prebuffer_samples(AudioStreamFormat::new(10, 1)), 1);
}

#[test]
fn virtual_microphone_requires_matching_input_rate() {
    let output = AudioStreamFormat::new(48_000, 1);
    assert_eq!(check_virtual_microphone_input_rate(AudioStreamFormat::new(48_000, 2), output), Ok(()));
    assert_eq!(
        check_virtual_microphone_input_rate(AudioStreamFormat::new(44_100, 1), output),
        Err(ClearLineError::StreamBuild(
            "ClearLine Virtual Microphone output currently requires a 48000 Hz input stream; selected input uses 44100 Hz"
                .to_string()
        ))
    );
}
