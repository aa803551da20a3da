use clearline::echo::{backend_label, needs_reference_capture, planned_echo_backend, ten_ms_frame_size, EchoCancellerBackend, EchoCancellerRuntimeInfo, NoopEchoCanceller};
use clearline::frame::FrameChunker;
use clearline::number::{parse_u32, parse_u64, parse_usize, IntParseError};
use clearline::sample_buffer::AudioSampleBuffer;
use clearline::suppressor::{
    high_quality_frame_size_samples, low_latency_frame_size_samples, plan_fallback_suppressor,
    AudioFrameFormat, SuppressorMode, SuppressorPlan, SuppressorRuntimeInfo,
    SuppressorWorkerDiagnostics,
};
use clearline::text::{chars_of, decimal_string};
use clearline::tray::{
    encode_utf16, to_wide, tray_event_for_command, tray_menu_items, write_wide_fixed, TrayEvent,
    TrayMenuItem, TrayMenuState, MENU_EXIT, MENU_TOGGLE_ECHO,
};
use clearline::virtual_mic::{
    check_reply_size, ctl_code, pcm_payload_byte_len, ClearLineBufferStatus, ClearLinePingResponse,
    VirtualMicControl, CLEARLINE_IOCTL_PING_INDEX, CLEARLINE_PING_MAGIC, CLEARLINE_PING_VERSION,
    FILE_ANY_ACCESS, FILE_DEVICE_UNKNOWN, IOCTL_CLEARLINE_GET_BUFFER_STATUS, IOCTL_CLEARLINE_PING,
    IOCTL_CLEARLINE_WRITE_PCM, METHOD_BUFFERED,
};
use clearline::worker_metrics::{nonzero_u64_to_u32, DeepFilterNetWorkerMetrics};

#[test]
fn ioctl_code_matches_driver_contract() {
    assert_eq!(IOCTL_CLEARLINE_PING, 0x0022_2004);
    assert_eq!(IOCTL_CLEARLINE_WRITE_PCM, 0x0022_2008);
    assert_eq!(IOCTL_CLEARLINE_GET_BUFFER_STATUS, 0x0022_200c);
    assert_eq!(
        ctl_code(FILE_DEVICE_UNKNOWN, CLEARLINE_IOCTL_PING_INDEX, METHOD_BUFFERED, FILE_ANY_ACCESS),
        IOCTL_CLEARLINE_PING
    );
}

#[test]
fn ping_response_validates_magic_and_version() {
    let response = ClearLinePingResponse {
        magic: CLEARLINE_PING_MAGIC,
        version: CLEARLINE_PING_VERSION,
        sample_rate_hz: 48_000,
        channels: 1,
    };

    assert_eq!(response.validate().unwrap().sample_rate_hz(), 48_000);
}

#[test]
fn ping_response_rejects_wrong_magic() {
    let response = ClearLinePingResponse {
        magic: 0,
        version: CLEARLINE_PING_VERSION,
        sample_rate_hz: 48_000,
        channels: 1,
    };

    let error = response.validate().unwrap_err();
    assert!(error.message().contains("unexpected ping magic"));
    assert_eq!(error.message(), "virtual microphone control failed: unexpected ping magic 0x00000000");
}

#[test]
fn buffer_status_reports_available_space_and_pressure() {
    let status = ClearLineBufferStatus {
        capacity_bytes: 192_000,
        readable_bytes: 4_800,
        writable_bytes: 187_200,
        total_written_bytes: 9_600,
        total_dropped_bytes: 0,
        overflow_count: 0,
        total_read_bytes: 3_200,
        total_underrun_bytes: 1_600,
        underrun_count: 2,
    };

    assert_eq!(status.capacity_bytes(), 192_000);
    assert_eq!(status.readable_bytes(), 4_800);
    assert_eq!(status.writable_bytes(), 187_200);
    assert_eq!(status.total_written_bytes(), 9_600);
    assert_eq!(status.total_dropped_bytes(), 0);
    assert_eq!(status.overflow_count(), 0);
    assert_eq!(status.total_read_bytes(), 3_200);
    assert_eq!(status.total_underrun_bytes(), 1_600);
    assert_eq!(status.underrun_count(), 2);
}

#[test]
fn virtual_mic_requests_check_sizes() {
    assert_eq!(pcm_payload_byte_len(480), Ok(960));
    assert!(check_reply_size("ping", 16, 16).is_ok());
    assert_eq!(
        check_reply_size("ping", 8, 16).unwrap_err().message(),
        "virtual microphone control failed: ping returned 8 bytes, expected 16"
    );
    let control = VirtualMicControl::with_path("x");
    assert_eq!(control.path(), "x");
    assert_eq!(
        control.unavailable_error().message(),
        "virtual microphone control failed: ClearLine virtual microphone control path x is only available on Windows"
    );
    let ping = ClearLinePingResponse { magic: CLEARLINE_PING_MAGIC, version: 7, sample_rate_hz: 48_000, channels: 1 };
    assert_eq!(
        ping.validate().unwrap_err().message(),
        "virtual microphone control failed: unsupported ping version 7"
    );
}

#[test]
fn runtime_info_can_attach_worker_diagnostics() {
    let diagnostics = SuppressorWorkerDiagnostics::new(3, 1, 3, 2)
        .with_dropped_input_frames(4)
        .with_dropped_output_frames(5)
        .with_late_output_frames(6)
        .with_inference_errors(7)
        .with_last_inference_time_ms(8)
        .with_max_inference_time_ms(9)
        .with_degraded(true);

    let info = SuppressorRuntimeInfo::new(SuppressorMode::HighQuality, "backend", 480, true)
        .with_worker_diagnostics(diagnostics);

    assert_eq!(info.worker_diagnostics(), Some(diagnostics));
    assert_eq!(info.worker_diagnostics().unwrap().input_queue_capacity(), 3);
    assert_eq!(info.worker_diagnostics().unwrap().pending_input_frames(), 1);
    assert_eq!(info.worker_diagnostics().unwrap().output_queue_capacity(), 3);
    assert_eq!(info.worker_diagnostics().unwrap().pending_output_frames(), 2);
    assert_eq!(info.worker_diagnostics().unwrap().dropped_input_frames(), 4);
    assert_eq!(info.worker_diagnostics().unwrap().dropped_output_frames(), 5);
    assert_eq!(info.worker_diagnostics().unwrap().late_output_frames(), 6);
    assert_eq!(info.worker_diagnostics().unwrap().inference_errors(), 7);
    assert_eq!(info.worker_diagnostics().unwrap().last_inference_time_ms(), Some(8));
    assert_eq!(info.worker_diagnostics().unwrap().max_inference_time_ms(), Some(9));
    assert!(info.worker_diagnostics().unwrap().is_degraded());
}

#[test]
fn runtime_info_has_no_worker_diagnostics_by_default() {
    let info = SuppressorRuntimeInfo::new(SuppressorMode::LowLatency, "backend", 480, true);

    assert_eq!(info.worker_diagnostics(), None);
}

#[test]
fn worker_metrics_track_queues_drops_and_timing() {
    let mut metrics = DeepFilterNetWorkerMetrics::new(3, 3);
    metrics.record_input_dequeued();
    assert_eq!(metrics.pending_input_frames, 0);
    metrics.record_input_enqueued();
    metrics.record_input_enqueued();
    metrics.record_input_dequeued();
    metrics.record_output_enqueued();
    metrics.record_dropped_input();
    metrics.record_dropped_output();
    metrics.record_late_output();
    metrics.record_inference_error();
    metrics.record_inference_time_ms(0);
    metrics.record_inference_time_ms(12);
    metrics.record_inference_time_ms(5);
    metrics.mark_degraded();

    let snapshot = metrics.snapshot();
    assert_eq!(snapshot.pending_input_frames(), 1);
    assert_eq!(snapshot.pending_output_frames(), 1);
    assert_eq!(snapshot.dropped_input_frames(), 1);
    assert_eq!(snapshot.dropped_output_frames(), 1);
    assert_eq!(snapshot.late_output_frames(), 1);
    assert_eq!(snapshot.inference_errors(), 1);
    assert_eq!(snapshot.last_inference_time_ms(), Some(5));
    assert_eq!(snapshot.max_inference_time_ms(), Some(12));
    assert!(snapshot.is_degraded());

    let fresh = DeepFilterNetWorkerMetrics::new(2, 4).snapshot();
    assert_eq!(fresh.last_inference_time_ms(), None);
    assert_eq!(fresh.max_inference_time_ms(), None);
    assert_eq!(nonzero_u64_to_u32(u64::MAX), Some(u32::MAX));
    assert_eq!(nonzero_u64_to_u32(0), None);
}

#[test]
fn chunker_emits_complete_frames_and_keeps_tail() {
    let mut chunker = FrameChunker::new(4);
    let mut frame = [0.0f32; 4];

    chunker.push_samples(&[0.1, 0.2, 0.3]);
    assert!(!chunker.pop_frame(&mut frame));
    assert_eq!(chunker.pending_samples(), 3);

    chunker.push_samples(&[0.4, 0.5, 0.6, 0.7, 0.8]);

    assert!(chunker.pop_frame(&mut frame));
    assert_eq!(frame, [0.1, 0.2, 0.3, 0.4]);
    assert!(chunker.pop_frame(&mut frame));
    assert_eq!(frame, [0.5, 0.6, 0.7, 0.8]);
    assert!(!chunker.pop_frame(&mut frame));
    assert_eq!(chunker.pending_samples(), 0);
}

#[test]
fn chunker_rejects_output_buffer_with_wrong_frame_size() {
    let mut chunker = FrameChunker::new(4);
    let mut wrong_frame = [0.0f32; 3];

    chunker.push_samples(&[0.1, 0.2, 0.3, 0.4]);

    let error = chunker.try_pop_frame(&mut wrong_frame).unwrap_err();
    assert_eq!(error.message(), "frame buffer length 3 does not match frame size 4");
}

#[test]
fn chunker_reset_drops_pending_samples() {
    let mut chunker = FrameChunker::new(4);
    let mut frame = [0.0f32; 4];

    chunker.push_samples(&[0.1, 0.2, 0.3]);
    chunker.reset();

    assert_eq!(chunker.pending_samples(), 0);
    assert!(!chunker.pop_frame(&mut frame));
}

#[test]
fn chunker_uses_at_least_one_sample_frame() {
    let mut chunker = FrameChunker::new(0);
    let mut frame = [0.0f32; 1];

    chunker.push_samples(&[0.25]);

    assert_eq!(chunker.frame_size_samples(), 1);
    assert!(chunker.pop_frame(&mut frame));
    assert_eq!(frame, [0.25]);
}

#[test]
fn sample_buffer_preserves_fifo_order() {
    let mut buffer = AudioSampleBuffer::new(4);

    buffer.push_samples(&[0.1f32, 0.2, 0.3]);

    let mut output = [0.0; 3];
    buffer.pop_samples_or_zero(&mut output, 0.0);

    assert_eq!(output, [0.1, 0.2, 0.3]);
}

#[test]
fn sample_buffer_drops_oldest_samples_when_full() {
    let mut buffer = AudioSampleBuffer::new(3);

    buffer.push_samples(&[0.1f32, 0.2, 0.3, 0.4]);

    let mut output = [0.0; 3];
    buffer.pop_samples_or_zero(&mut output, 0.0);

    assert_eq!(output, [0.2, 0.3, 0.4]);
}

#[test]
fn sample_buffer_zero_fills_when_empty() {
    let mut buffer = AudioSampleBuffer::new(3);

    buffer.push_samples(&[0.5f32]);

    let mut output = [0.0; 3];
    buffer.pop_samples_or_zero(&mut output, 0.0);

    assert_eq!(output, [0.5, 0.0, 0.0]);
}

#[test]
fn sample_buffer_reports_fill_underrun_and_drop_metrics() {
    let mut buffer = AudioSampleBuffer::new(3);

    buffer.push_samples(&[0.1f32, 0.2, 0.3, 0.4]);
    let after_push = buffer.metrics();
    assert_eq!(after_push.buffered_samples(), 3);
    assert_eq!(after_push.capacity_samples(), 3);
    assert_eq!(after_push.dropped_sample_count(), 1);

    let mut output = [0.0; 5];
    buffer.pop_samples_or_zero(&mut output, 0.0);
    let after_pop = buffer.metrics();

    assert_eq!(after_pop.buffered_samples(), 0);
    assert_eq!(after_pop.underrun_sample_count(), 2);
}

#[test]
fn sample_buffer_does_not_count_underrun_before_prebuffer_is_ready() {
    let mut buffer = AudioSampleBuffer::with_prebuffer(8, 4);

    let mut early_output = [1.0f32; 2];
    buffer.pop_samples_or_zero(&mut early_output, 0.0);

    assert_eq!(early_output, [0.0, 0.0]);
    assert_eq!(buffer.metrics().underrun_sample_count(), 0);
    assert_eq!(buffer.metrics().buffered_samples(), 0);

    buffer.push_samples(&[0.1, 0.2, 0.3]);
    let mut not_ready_output = [1.0; 2];
    buffer.pop_samples_or_zero(&mut not_ready_output, 0.0);

    assert_eq!(not_ready_output, [0.0, 0.0]);
    assert_eq!(buffer.metrics().underrun_sample_count(), 0);
    assert_eq!(buffer.metrics().buffered_samples(), 3);

    buffer.push_samples(&[0.4]);
    let mut ready_output = [0.0; 2];
    buffer.pop_samples_or_zero(&mut ready_output, 0.0);

    assert_eq!(ready_output, [0.1, 0.2]);
    assert_eq!(buffer.metrics().underrun_sample_count(), 0);
    assert_eq!(buffer.metrics().buffered_samples(), 2);
}

#[test]
fn sample_buffer_reenters_prebuffer_after_real_underrun() {
    let mut buffer = AudioSampleBuffer::with_prebuffer(8, 2);
    buffer.push_samples(&[0.1f32, 0.2]);

    let mut output = [0.0; 4];
    buffer.pop_samples_or_zero(&mut output, 0.0);

    assert_eq!(output, [0.1, 0.2, 0.0, 0.0]);
    assert_eq!(buffer.metrics().underrun_sample_count(), 2);

    buffer.push_samples(&[0.3]);
    let mut rebuffering_output = [1.0; 1];
    buffer.pop_samples_or_zero(&mut rebuffering_output, 0.0);

    assert_eq!(rebuffering_output, [0.0]);
    assert_eq!(buffer.metrics().underrun_sample_count(), 2);
    assert_eq!(buffer.metrics().buffered_samples(), 1);
}

#[test]
fn noop_echo_canceller_copies_capture_and_reports_disabled() {
    let format = AudioFrameFormat::new(48_000, 1);
    let canceller = NoopEchoCanceller::new(format);

    let info = canceller.runtime_info();
    assert_eq!(info.backend(), EchoCancellerBackend::Disabled);
    assert_eq!(info.format(), format);
    assert!(!needs_reference_capture(info));
    assert!(needs_reference_capture(EchoCancellerRuntimeInfo::new(EchoCancellerBackend::Aec3, format)));
    assert_eq!(planned_echo_backend(true, true), EchoCancellerBackend::Aec3);
    assert_eq!(planned_echo_backend(true, false), EchoCancellerBackend::Disabled);
    assert_eq!(ten_ms_frame_size(AudioFrameFormat::new(48_000, 2)), 960);
    assert_eq!(ten_ms_frame_size(AudioFrameFormat::new(50, 0)), 1);
    assert_eq!(backend_label(EchoCancellerBackend::Aec3), "AEC3");
    assert_eq!(backend_label(EchoCancellerBackend::Disabled), "Disabled");
}

#[test]
fn suppressor_frames_and_fallbacks() {
    assert_eq!(low_latency_frame_size_samples(AudioFrameFormat::new(48_000, 1)), 480);
    assert_eq!(high_quality_frame_size_samples(AudioFrameFormat::new(48_000, 1)), 960);
    assert_eq!(plan_fallback_suppressor(SuppressorMode::HighQuality, false), SuppressorPlan::LowLatency);
    assert_eq!(plan_fallback_suppressor(SuppressorMode::HighQuality, true), SuppressorPlan::DeepFilterNet);
}

#[test]
fn tray_menu_marks_follow_the_state() {
    let state = TrayMenuState {
        noise_suppression_enabled: true,
        start_on_login_enabled: false,
        wind_noise_reduction_enabled: false,
        echo_cancellation_enabled: true,
    };
    let items = tray_menu_items(state);
    assert_eq!(items.len(), 8);
    assert_eq!(items[5], TrayMenuItem::Checked { id: MENU_TOGGLE_ECHO, label: "回音消除", checked: true });
    assert_eq!(items[7], TrayMenuItem::Item { id: MENU_EXIT, label: "退出 ClearLine" });
    assert_eq!(tray_event_for_command(MENU_EXIT), Some(TrayEvent::Exit));
    assert_eq!(tray_event_for_command(0), None);
}

#[test]
fn wide_strings_are_utf16_and_bounded() {
    assert_eq!(encode_utf16("a降😀"), "a降😀".encode_utf16().collect::<Vec<u16>>());
    assert_eq!(to_wide("ab"), vec![97, 98, 0]);
    let mut buffer = [7u16; 4];
    write_wide_fixed(&mut buffer, "abcdef");
    assert_eq!(buffer, [97, 98, 99, 0]);
}

#[test]
fn integers_parse_like_std() {
    let parse = |s: &str| parse_u32(&chars_of(s));
    assert_eq!(parse("+42"), Ok(42));
    assert_eq!(parse(""), Err(IntParseError::Empty));
    assert_eq!(parse("+"), Err(IntParseError::InvalidDigit));
    assert_eq!(parse("-1"), Err(IntParseError::InvalidDigit));
    assert_eq!(parse("4294967295"), Ok(u32::MAX));
    assert_eq!(parse("4294967296"), Err(IntParseError::PosOverflow));
    assert_eq!(parse_u64(&chars_of("18446744073709551615")), Ok(u64::MAX));
    assert_eq!(parse_usize(&chars_of("12")), Ok(12));
    assert_eq!(decimal_string(1_234_567), "1234567");
}
